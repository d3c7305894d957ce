use vstd::prelude::*;

verus! {

/// What `str::to_lowercase` returns for the given text.
pub uninterp spec fn lowercase(s: Seq<char>) -> Seq<char>;

/// `c` lies in the ASCII range.
pub open spec fn is_ascii_char(c: char) -> bool {
    (c as u32) < 128
}

/// ASCII case mapping of one character: 'A'..='Z' to 'a'..='z', all else kept.
pub open spec fn ascii_lower(c: char) -> char {
    if 'A' <= c && c <= 'Z' {
        ((c as u32) + 32) as char
    } else {
        c
    }
}

/// `s` with every '_' taken out, the other characters kept in order.
pub open spec fn drop_underscores(s: Seq<char>) -> Seq<char>
    decreases s.len(),
{
    if s.len() == 0 {
        Seq::empty()
    } else if s.last() == '_' {
        drop_underscores(s.drop_last())
    } else {
        drop_underscores(s.drop_last()).push(s.last())
    }
}

/// The form in which names are compared: lowercased, underscores dropped.
pub open spec fn normalized(s: Seq<char>) -> Seq<char> {
    drop_underscores(lowercase(s))
}

/// Every character of `s` lies in the ASCII range.
pub open spec fn is_ascii_text(s: Seq<char>) -> bool {
    forall|i: int| 0 <= i < s.len() ==> is_ascii_char(#[trigger] s[i])
}

/// `normalized` for ASCII text, where lowercasing is the ASCII case mapping.
pub open spec fn ascii_normalized(s: Seq<char>) -> Seq<char> {
    drop_underscores(s.map_values(|c: char| ascii_lower(c)))
}

/// Letters read as the digits of a number in base 27, 'a' being 1.
pub open spec fn letters_number(s: Seq<char>) -> int
    decreases s.len(),
{
    if s.len() == 0 {
        0
    } else {
        letters_number(s.drop_last()) * 27 + (s.last() as int) - 96
    }
}

/// `letters_number` of `ascii_normalized(s)`, computed on `s` itself: underscores
/// skipped, the others lowercased and read as digits.
pub open spec fn name_number(s: Seq<char>) -> int
    decreases s.len(),
{
    if s.len() == 0 {
        0
    } else if s.last() == '_' {
        name_number(s.drop_last())
    } else {
        name_number(s.drop_last()) * 27 + (ascii_lower(s.last()) as int) - 96
    }
}

/// Texts with the same ASCII-normalized form have the same `name_number`; so texts whose
/// numbers differ never match one another.
pub proof fn lemma_name_number(s: Seq<char>)
    ensures
        name_number(s) == letters_number(ascii_normalized(s)),
    decreases s.len(),
{
    let m = s.map_values(|c: char| ascii_lower(c));
    if s.len() == 0 {
        assert(m =~= Seq::<char>::empty());
    } else {
        let t = s.drop_last();
        lemma_name_number(t);
        let mt = t.map_values(|c: char| ascii_lower(c));
        assert(m.drop_last() =~= mt);
        let c = s.last();
        assert(m.last() == ascii_lower(c));
        assert((ascii_lower(c) == '_') == (c == '_'));
        if c != '_' {
            let n = drop_underscores(mt);
            assert(n.push(ascii_lower(c)).drop_last() =~= n);
        }
    }
}

/// `str::to_lowercase`.  Its result is named by `lowercase`; for text made of ASCII
/// characters only it is the ASCII case mapping of each character (Unicode's lowercase
/// mapping agrees with ASCII there).  What it does beyond ASCII is left to the name.
#[verifier::external_body]
fn to_lowercase(s: &str) -> (r: String)
    ensures
        r@ == lowercase(s@),
        (forall|i: int| 0 <= i < s@.len() ==> is_ascii_char(#[trigger] s@[i])) ==> r@ == s@.map_values(
            |c: char| ascii_lower(c),
        ),
{
    s.to_lowercase()
}

/// The characters of a text, in order.
pub fn chars_of(s: &str) -> (r: Vec<char>)
    ensures
        r@ == s@,
{
    let mut v: Vec<char> = Vec::new();
    for c in it: s.chars()
        invariant
            v@ == it.seq().take(it.index() as int),
    {
        v.push(c);
    }
    v
}

/// The characters of `s` lowercased, with underscores dropped.
pub fn normalized_key(s: &str) -> (r: Vec<char>)
    ensures
        r@ == normalized(s@),
        is_ascii_text(s@) ==> r@ == ascii_normalized(s@),
{
    let lower = to_lowercase(s);
    let cs = chars_of(lower.as_str());
    let mut out: Vec<char> = Vec::new();
    let mut i: usize = 0;
    while i < cs.len()
        invariant
            i <= cs@.len(),
            cs@ == lowercase(s@),
            out@ == drop_underscores(cs@.take(i as int)),
        decreases cs@.len() - i,
    {
        proof {
            assert(cs@.take(i + 1).drop_last() =~= cs@.take(i as int));
        }
        if cs[i] != '_' {
            out.push(cs[i]);
        }
        i += 1;
    }
    proof {
        assert(cs@.take(cs@.len() as int) =~= cs@);
    }
    out
}

/// Element-wise equality of two character vectors.
pub fn same_chars(a: &Vec<char>, b: &Vec<char>) -> (r: bool)
    ensures
        r == (a@ == b@),
{
    if a.len() != b.len() {
        return false;
    }
    let mut i: usize = 0;
    while i < a.len()
        invariant
            a@.len() == b@.len(),
            i <= a@.len(),
            forall|j: int| 0 <= j < i ==> a@[j] == b@[j],
        decreases a@.len() - i,
    {
        if a[i] != b[i] {
            return false;
        }
        i += 1;
    }
    proof {
        assert(a@ =~= b@);
    }
    true
}

} // verus!
