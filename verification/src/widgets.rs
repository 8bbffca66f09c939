//! The computations behind the small widgets: colours, titles and labels.

use vstd::prelude::*;
use vstd::string::{StrSliceExecFns, StringExecFns};
use crate::model::{NodeKind, Rgb};
use crate::text::{chars_of, join2, join3, owned};

verus! {

/// How a section title is drawn.
pub struct TitleStyle {
    pub text: String,
    /// Font size in points.
    pub size: u32,
    pub strong: bool,
    pub color: Rgb,
    /// Space left below the title, in points.
    pub space_after: u32,
}

/// A row's label in the listing and whether it is drawn dimmed.
pub struct RowLabel {
    pub text: String,
    pub dim: bool,
}

/// The title of a section of the start screen: strong white text of 15
/// points with 4 points of space below.
pub fn section_title(text: &str) -> (t: TitleStyle)
    ensures
        t.text@ == text@,
        t.size == 15,
        t.strong,
        t.color == (Rgb { r: 255, g: 255, b: 255 }),
        t.space_after == 4,
{
    TitleStyle {
        text: String::from_str(text),
        size: 15,
        strong: true,
        color: Rgb { r: 255, g: 255, b: 255 },
        space_after: 4,
    }
}

/// Colour of a folder frame in the map: darker near the top, lighter deeper
/// down (up to depth 8), and a dull red for folders that could not be read.
pub open spec fn frame_color(depth: u16, unreadable: bool) -> Rgb {
    if unreadable {
        Rgb { r: 78, g: 44, b: 44 }
    } else {
        let d: int = if depth < 8 {
            depth as int
        } else {
            8
        };
        Rgb { r: (34 + d * 7) as u8, g: (39 + d * 7) as u8, b: (50 + d * 7) as u8 }
    }
}

/// The colour of a folder frame at `depth`.
pub fn dir_color(depth: u16, unreadable: bool) -> (c: Rgb)
    ensures
        c == frame_color(depth, unreadable),
{
    if unreadable {
        return Rgb { r: 78, g: 44, b: 44 };
    }
    let d: u8 = if depth < 8 {
        depth as u8
    } else {
        8
    };
    Rgb { r: 34 + d * 7, g: 39 + d * 7, b: 50 + d * 7 }
}

/// Deeper folder frames are never darker, and from depth 8 on they all have
/// one colour.
pub proof fn lemma_frame_color_depth(a: u16, b: u16, unreadable: bool)
    requires
        a <= b,
    ensures
        frame_color(a, unreadable).r <= frame_color(b, unreadable).r,
        frame_color(a, unreadable).g <= frame_color(b, unreadable).g,
        frame_color(a, unreadable).b <= frame_color(b, unreadable).b,
        a >= 8 ==> frame_color(a, unreadable) == frame_color(b, unreadable),
{
}

/// The index of the last occurrence of `c` in `s`.
pub open spec fn last_index_of(s: Seq<char>, c: char) -> Option<int> {
    if exists|i: int| 0 <= i < s.len() && s[i] == c && (forall|j: int| i < j < s.len() ==> s[j] != c) {
        Some(
            choose|i: int|
                0 <= i < s.len() && s[i] == c && (forall|j: int| i < j < s.len() ==> s[j] != c),
        )
    } else {
        None
    }
}

/// A file's type as shown: its category, or for the category "Other" the
/// extension (".zip file"), or "File" when the name has none.
pub open spec fn type_label_spec(name: Seq<char>, other: bool, category: Seq<char>) -> Seq<char> {
    if other {
        match last_index_of(name, '.') {
            Some(i) => if 0 < i && i + 1 < name.len() {
                "."@ + name.subrange(i + 1, name.len() as int) + " file"@
            } else {
                "File"@
            },
            None => "File"@,
        }
    } else {
        category
    }
}

/// The type of a file named `name`. `other` tells whether its category is
/// "Other"; `category` is the category's label.
pub fn type_label(name: &str, other: bool, category: &str) -> (r: String)
    ensures
        r@ == type_label_spec(name@, other, category@),
{
    if !other {
        return owned(category);
    }
    let cs = chars_of(name);
    let n = cs.len();
    let mut i: usize = n;
    while i > 0 && cs[i - 1] != '.'
        invariant
            i <= n,
            n == cs@.len(),
            cs@ == name@,
            forall|j: int| i <= j < n ==> cs@[j] != '.',
        decreases i,
    {
        i = i - 1;
    }
    if i == 0 {
        proof {
            if exists|k: int|
                0 <= k < n && cs@[k] == '.' && (forall|j: int| k < j < n ==> cs@[j] != '.') {
                let k = choose|k: int|
                    0 <= k < n && cs@[k] == '.' && (forall|j: int| k < j < n ==> cs@[j] != '.');
                assert(cs@[k] != '.');
            }
        }
        return owned("File");
    }
    let dot = i - 1;
    proof {
        let s = name@;
        assert(0 <= dot < s.len() && s[dot as int] == '.' && (forall|j: int|
            dot < j < s.len() ==> s[j] != '.'));
        let k = choose|k: int|
            0 <= k < s.len() && s[k] == '.' && (forall|j: int| k < j < s.len() ==> s[j] != '.');
        assert(k == dot) by {
            if k < dot {
                assert(s[dot as int] != '.');
            }
            if k > dot {
                assert(s[k] != '.');
            }
        }
    }
    if dot > 0 && dot + 1 < n {
        let ext = name.substring_char(dot + 1, n);
        join3(".", ext, " file")
    } else {
        owned("File")
    }
}

/// A row's label in the listing: links and unreadable folders say so, and
/// are dimmed.
pub fn row_label(name: &str, kind: NodeKind, unreadable: bool) -> (r: RowLabel)
    ensures
        r.text@ == (if kind == NodeKind::Link {
            name@ + "  (link, not followed)"@
        } else if unreadable {
            name@ + "  (access denied)"@
        } else {
            name@
        }),
        r.dim == (kind == NodeKind::Link || unreadable),
{
    let link = match kind {
        NodeKind::Link => true,
        _ => false,
    };
    let text = if link {
        join2(name, "  (link, not followed)")
    } else if unreadable {
        join2(name, "  (access denied)")
    } else {
        owned(name)
    };
    RowLabel { text, dim: link || unreadable }
}

/// The title of a drive's card: its root, then its label if it has one.
pub fn drive_title(root: &str, label: &str) -> (r: String)
    ensures
        r@ == (if label@.len() == 0 {
            root@
        } else {
            root@ + "  "@ + label@
        }),
{
    if label.is_empty() {
        owned(root)
    } else {
        join3(root, "  ", label)
    }
}

/// What the map says when it has nothing to draw.
pub fn empty_map_message(unreadable: bool, has_children: bool) -> (r: &'static str)
    ensures
        r@ == (if unreadable {
            "This folder could not be read (access denied)."@
        } else if !has_children {
            "This folder is empty."@
        } else {
            "Everything in this folder is 0 bytes."@
        }),
{
    if unreadable {
        "This folder could not be read (access denied)."
    } else if !has_children {
        "This folder is empty."
    } else {
        "Everything in this folder is 0 bytes."
    }
}

/// What the listing says when the folder has no children.
pub fn empty_list_message(unreadable: bool) -> (r: &'static str)
    ensures
        r@ == (if unreadable {
            "This folder could not be read (access denied)."@
        } else {
            "This folder is empty."@
        }),
{
    if unreadable {
        "This folder could not be read (access denied)."
    } else {
        "This folder is empty."
    }
}

} // verus!
