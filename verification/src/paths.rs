use vstd::prelude::*;

verus! {

/// Index just after the last occurrence of `sep` in `p`, or 0 when `p`
/// holds no `sep` at all.
pub open spec fn split_start(p: Seq<char>, sep: char) -> int
    decreases p.len(),
{
    if p.len() == 0 {
        0
    } else if p.last() == sep {
        p.len() as int
    } else {
        split_start(p.drop_last(), sep)
    }
}

/// What `split_start` returns: a position bounded by the length, preceded
/// by `sep` unless it is 0, with no `sep` after it.
pub proof fn lemma_split_start(p: Seq<char>, sep: char)
    ensures
        0 <= split_start(p, sep) <= p.len(),
        forall|j: int| split_start(p, sep) <= j < p.len() ==> p[j] != sep,
        split_start(p, sep) == 0 || p[split_start(p, sep) - 1] == sep,
    decreases p.len(),
{
    if p.len() == 0 {
    } else if p.last() == sep {
    } else {
        lemma_split_start(p.drop_last(), sep);
        assert forall|j: int| split_start(p, sep) <= j < p.len() implies p[j] != sep by {
            if j < p.len() - 1 {
                assert(p.drop_last()[j] == p[j]);
            }
        }
        if split_start(p, sep) > 0 {
            assert(p.drop_last()[split_start(p, sep) - 1] == p[split_start(p, sep) - 1]);
        }
    }
}

/// A position that is preceded by `sep` (or is 0) and is followed by no
/// `sep` is exactly `split_start`.
pub proof fn lemma_split_start_at(p: Seq<char>, sep: char, cut: int)
    requires
        0 <= cut <= p.len(),
        cut == 0 || p[cut - 1] == sep,
        forall|j: int| cut <= j < p.len() ==> p[j] != sep,
    ensures
        split_start(p, sep) == cut,
    decreases p.len(),
{
    if cut == p.len() {
    } else {
        assert(p.last() != sep);
        lemma_split_start_at(p.drop_last(), sep, cut);
    }
}

/// Start of the file-name component of a path: just after the last `/`.
pub open spec fn name_start(p: Seq<char>) -> int {
    split_start(p, '/')
}

/// The file-name portion of a path: what follows the last separator.
/// Empty when the path is empty or ends in a separator (a filesystem
/// root has no file name).
pub open spec fn file_name_spec(p: Seq<char>) -> Seq<char> {
    p.subrange(name_start(p), p.len() as int)
}

/// The parent directory of a path: the portion before the last separator,
/// the lone root `/` kept whole. A path without a separator, and the root
/// itself, have none.
pub open spec fn parent_spec(p: Seq<char>) -> Option<Seq<char>> {
    let s = name_start(p);
    if s == 0 {
        Option::None
    } else if s == 1 {
        if p.len() == 1 {
            Option::None
        } else {
            Option::Some(p.subrange(0, 1))
        }
    } else {
        Option::Some(p.subrange(0, s - 1))
    }
}

/// `d` then `n`, with exactly one separator between them.
pub open spec fn join_spec(d: Seq<char>, n: Seq<char>) -> Seq<char> {
    if d.len() > 0 && d.last() == '/' {
        d + n
    } else {
        d + seq!['/'] + n
    }
}

/// The extension of a file name: what follows the last dot, provided that
/// dot is neither absent nor the leading character (a name such as
/// `.config` counts as having no extension).
pub open spec fn extension_spec(n: Seq<char>) -> Option<Seq<char>> {
    let s = split_start(n, '.');
    if s <= 1 {
        Option::None
    } else {
        Option::Some(n.subrange(s, n.len() as int))
    }
}

/// Hidden classification: a leading dot. Affects presentation only.
pub open spec fn is_hidden(n: Seq<char>) -> bool {
    n.len() > 0 && n[0] == '.'
}

/// Finds `split_start` of a string by scanning backwards.
fn find_split_start(p: &str, sep: char) -> (r: usize)
    ensures
        r as int == split_start(p@, sep),
{
    let len = p.unicode_len();
    let mut cut = len;
    while cut > 0
        invariant
            cut <= len,
            len == p@.len(),
            forall|j: int| cut <= j < len ==> p@[j] != sep,
        decreases cut,
    {
        if p.get_char(cut - 1) == sep {
            proof {
                lemma_split_start_at(p@, sep, cut as int);
            }
            return cut;
        }
        cut = cut - 1;
    }
    proof {
        lemma_split_start_at(p@, sep, 0);
    }
    0
}

/// The file-name component of `p`, or `None` when it has none.
pub fn file_name_of(p: &str) -> (r: Option<String>)
    ensures
        match r {
            Option::Some(n) => n@ == file_name_spec(p@) && n@.len() > 0,
            Option::None => file_name_spec(p@).len() == 0,
        },
{
    proof {
        lemma_split_start(p@, '/');
    }
    let s = find_split_start(p, '/');
    let len = p.unicode_len();
    if s == len {
        Option::None
    } else {
        Option::Some(p.substring_char(s, len).to_owned())
    }
}

/// The parent directory of `p`, or `None` when it has none.
pub fn parent_of(p: &str) -> (r: Option<String>)
    ensures
        match r {
            Option::Some(d) => parent_spec(p@) == Option::Some(d@),
            Option::None => parent_spec(p@) is None,
        },
{
    proof {
        lemma_split_start(p@, '/');
    }
    let s = find_split_start(p, '/');
    let len = p.unicode_len();
    if s == 0 {
        Option::None
    } else if s == 1 {
        if len == 1 {
            Option::None
        } else {
            Option::Some(p.substring_char(0, 1).to_owned())
        }
    } else {
        Option::Some(p.substring_char(0, s - 1).to_owned())
    }
}

/// Joins a directory and a child name into one path.
pub fn join_path(d: &str, n: &str) -> (r: String)
    ensures
        r@ == join_spec(d@, n@),
{
    let len = d.unicode_len();
    let mut out = d.to_owned();
    if len > 0 && d.get_char(len - 1) == '/' {
        out.append(n);
    } else {
        out.append("/");
        out.append(n);
        proof {
            reveal_strlit("/");
            assert("/"@ =~= seq!['/']);
        }
    }
    out
}

/// The extension of the file name `n`, or `None` when it has none.
pub fn extension_of(n: &str) -> (r: Option<String>)
    ensures
        match r {
            Option::Some(e) => extension_spec(n@) == Option::Some(e@),
            Option::None => extension_spec(n@) is None,
        },
{
    proof {
        lemma_split_start(n@, '.');
    }
    let s = find_split_start(n, '.');
    let len = n.unicode_len();
    if s <= 1 {
        Option::None
    } else {
        Option::Some(n.substring_char(s, len).to_owned())
    }
}

/// Whether the name `n` is classified as hidden.
pub fn hidden_name(n: &str) -> (r: bool)
    ensures
        r == is_hidden(n@),
{
    n.unicode_len() > 0 && n.get_char(0) == '.'
}

} // verus!
