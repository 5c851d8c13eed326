//! The stream that the screencast portal opened, and the target it shows.

use vstd::prelude::*;

use crate::targets::{Display, Target, Window};
use crate::text::{decimal_text, i32_text, u32_text};

verus! {

/// What the screencast portal tells of the stream it opened.
#[derive(Debug, Clone, Copy)]
pub struct StreamVardict {
    /// Whether the user picked a whole display rather than a window; not
    /// always told.
    pub is_display: Option<bool>,
    pub size: Option<(i32, i32)>,
    pub position: Option<(i32, i32)>,
}

/// A stream that the screencast portal opened for capture.
///
/// The session connection that keeps the stream alive is held beside it by
/// whoever opened the session.
#[derive(Debug)]
pub struct CaptureStreamBuilder {
    pub stream_id: u32,
    pub stream_var_dict: StreamVardict,
}

/// Both coordinates of `pair` reinterpreted as `u32`.
pub open spec fn unsigned_pair(pair: Option<(i32, i32)>) -> Option<(u32, u32)> {
    match pair {
        Some((a, b)) => Some((a as u32, b as u32)),
        None => None,
    }
}

/// The title given to the portal's stream, whose real title is not told:
/// its kind, its id and its size, as `kind:id:WIDTHxHEIGHT`.
pub open spec fn stream_title(is_display: Option<bool>, id: u32, size: Option<(i32, i32)>) -> Seq<char> {
    let kind = match is_display {
        Some(true) => "Display"@,
        Some(false) => "Window"@,
        None => "unknown"@,
    };
    let dims = match size {
        Some((w, h)) => decimal_text(w as int) + "x"@ + decimal_text(h as int),
        None => "WxH"@,
    };
    kind + ":"@ + decimal_text(id as int) + ":"@ + dims
}

fn pair_as_unsigned(pair: Option<(i32, i32)>) -> (r: Option<(u32, u32)>)
    ensures
        r == unsigned_pair(pair),
{
    match pair {
        Some((a, b)) => Some((a as u32, b as u32)),
        None => None,
    }
}

impl CaptureStreamBuilder {
    /// The target that the stream shows: a display unless the portal says
    /// it is a window.
    pub fn get_target(&self) -> (t: Target)
        ensures
            (self.stream_var_dict.is_display != Some(false)) <==> t is Display,
            t.target_id() == self.stream_id,
            t.target_title()@ == stream_title(
                self.stream_var_dict.is_display,
                self.stream_id,
                self.stream_var_dict.size,
            ),
            t.target_size() == unsigned_pair(self.stream_var_dict.size),
            t.target_position() == unsigned_pair(self.stream_var_dict.position),
            self.stream_var_dict.size matches Some((w, h)) ==> t.target_size() == Some((w as u32, h as u32)),
            self.stream_var_dict.size is None ==> t.target_size() is None,
            self.stream_var_dict.position matches Some((x, y)) ==> t.target_position() == Some(
                (x as u32, y as u32),
            ),
            self.stream_var_dict.position is None ==> t.target_position() is None,
            t matches Target::Display(d) ==> d.raw_handle is None,
            t matches Target::Window(w) ==> w.raw_handle is None,
    {
        let stream_var_dict = self.stream_var_dict;
        let is_display = match stream_var_dict.is_display {
            Some(b) => b,
            None => true,
        };
        let id = self.stream_id;
        let mut title = match stream_var_dict.is_display {
            Some(true) => {
                proof {
                    reveal_strlit("Display");
                }
                String::from_str("Display")
            },
            Some(false) => {
                proof {
                    reveal_strlit("Window");
                }
                String::from_str("Window")
            },
            None => {
                proof {
                    reveal_strlit("unknown");
                }
                String::from_str("unknown")
            },
        };
        proof {
            reveal_strlit(":");
            reveal_strlit("x");
            reveal_strlit("WxH");
        }
        title.append(":");
        let id_text = u32_text(id);
        title.append(id_text.as_str());
        title.append(":");
        match stream_var_dict.size {
            Some((w, h)) => {
                let w_text = i32_text(w);
                let h_text = i32_text(h);
                title.append(w_text.as_str());
                title.append("x");
                title.append(h_text.as_str());
            },
            None => {
                title.append("WxH");
            },
        }
        proof {
            assert(title@ =~= stream_title(stream_var_dict.is_display, id, stream_var_dict.size));
        }
        let size = pair_as_unsigned(stream_var_dict.size);
        let position = pair_as_unsigned(stream_var_dict.position);
        if is_display {
            Target::Display(Display { id, title, size, position, raw_handle: None })
        } else {
            Target::Window(Window { id, title, size, position, raw_handle: None })
        }
    }
}

/// Reinterpreting a pair as unsigned keeps the order of its coordinates:
/// swapping the coordinates before or after gives the same pair, and
/// coordinates that are not negative keep their values.
pub proof fn lemma_unsigned_pair_keeps_order(a: i32, b: i32)
    ensures
        unsigned_pair(Some((a, b))) matches Some((first, second)) && {
            &&& unsigned_pair(Some((b, a))) == Some((second, first))
            &&& a >= 0 ==> first == a
            &&& b >= 0 ==> second == b
        },
        unsigned_pair(None) is None,
{
}

} // verus!
