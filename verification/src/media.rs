//! Media-type inference for produced artifacts.
//!
//! The media type of an artifact is a function of its file name's extension
//! alone: `css` maps to `text/css`, `js` to `application/javascript`, `html`
//! to `text/html`, and anything else to a generic binary type.

use vstd::prelude::*;
use vstd::string::*;

verus! {

/// The position of the last `.` in `s`, if any.
pub open spec fn find_last_dot(s: Seq<char>) -> Option<int>
    decreases s.len(),
{
    if s.len() == 0 {
        None
    } else if s[s.len() - 1] == '.' {
        Some(s.len() - 1)
    } else {
        find_last_dot(s.drop_last())
    }
}

pub proof fn lemma_find_last_dot_in_range(s: Seq<char>)
    ensures
        match find_last_dot(s) {
            Some(i) => 0 <= i < s.len() && s[i] == '.',
            None => true,
        },
    decreases s.len(),
{
    if s.len() > 0 && s[s.len() - 1] != '.' {
        lemma_find_last_dot_in_range(s.drop_last());
    }
}

/// The extension of a file name: the portion after the last dot, provided the
/// dot is neither the first character nor absent.
pub open spec fn spec_extension(name: Seq<char>) -> Option<Seq<char>> {
    match find_last_dot(name) {
        None => None,
        Some(i) => if i >= 1 {
            Some(name.subrange(i + 1, name.len() as int))
        } else {
            None
        },
    }
}

/// The media type assigned to an extension.
pub open spec fn spec_media_for_extension(ext: Option<Seq<char>>) -> Seq<char> {
    match ext {
        Some(e) => if e == "css"@ {
            "text/css"@
        } else if e == "js"@ {
            "application/javascript"@
        } else if e == "html"@ {
            "text/html"@
        } else {
            "application/octet-stream"@
        },
        None => "application/octet-stream"@,
    }
}

/// The media type assigned to a file name.
pub open spec fn spec_media_type(name: Seq<char>) -> Seq<char> {
    spec_media_for_extension(spec_extension(name))
}

/// Media-type inference is a function of the extension alone: two names with
/// the same extension always carry the same media type.
pub proof fn lemma_media_type_depends_only_on_extension(a: Seq<char>, b: Seq<char>)
    requires
        spec_extension(a) == spec_extension(b),
    ensures
        spec_media_type(a) == spec_media_type(b),
{
}

/// Index of the last `.` of `name`, scanning from the end.
fn find_last_dot_exec(name: &str) -> (r: Option<usize>)
    ensures
        match r {
            Some(i) => find_last_dot(name@) == Some(i as int),
            None => find_last_dot(name@) is None,
        },
{
    let n = name.unicode_len();
    let mut i = n;
    proof {
        assert(name@.subrange(0, n as int) =~= name@);
    }
    loop
        invariant
            i <= n,
            n == name@.len(),
            find_last_dot(name@) == find_last_dot(name@.subrange(0, i as int)),
        decreases i,
    {
        if i == 0 {
            proof {
                assert(name@.subrange(0, 0) =~= Seq::<char>::empty());
            }
            return None;
        }
        let c = name.get_char(i - 1);
        if c == '.' {
            proof {
                let pre = name@.subrange(0, i as int);
                assert(pre[pre.len() - 1] == '.');
            }
            return Some(i - 1);
        }
        proof {
            let pre = name@.subrange(0, i as int);
            assert(pre[pre.len() - 1] != '.');
            assert(pre.drop_last() =~= name@.subrange(0, i - 1));
        }
        i = i - 1;
    }
}

/// Character-for-character comparison of two string slices.
fn str_eq(a: &str, b: &str) -> (r: bool)
    ensures
        r == (a@ == b@),
{
    let an = a.unicode_len();
    let bn = b.unicode_len();
    if an != bn {
        return false;
    }
    let mut i: usize = 0;
    while i < an
        invariant
            i <= an,
            an == a@.len(),
            bn == b@.len(),
            an == bn,
            forall|j: int| 0 <= j < i ==> a@[j] == b@[j],
        decreases an - i,
    {
        if a.get_char(i) != b.get_char(i) {
            return false;
        }
        i = i + 1;
    }
    proof {
        assert(a@ =~= b@);
    }
    true
}

/// The media type for a produced file, inferred from its name's extension.
pub fn media_type_for(name: &str) -> (r: String)
    ensures
        r@ == spec_media_type(name@),
{
    proof {
        lemma_find_last_dot_in_range(name@);
    }
    let dot = find_last_dot_exec(name);
    match dot {
        Some(i) => {
            if i >= 1 {
                let n = name.unicode_len();
                let ext = name.substring_char(i + 1, n);
                if str_eq(ext, "css") {
                    String::from_str("text/css")
                } else if str_eq(ext, "js") {
                    String::from_str("application/javascript")
                } else if str_eq(ext, "html") {
                    String::from_str("text/html")
                } else {
                    String::from_str("application/octet-stream")
                }
            } else {
                String::from_str("application/octet-stream")
            }
        },
        None => String::from_str("application/octet-stream"),
    }
}

} // verus!

