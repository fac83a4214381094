//! Text helpers shared by the rest of the library.

use vstd::prelude::*;

verus! {

/// `needle` occurs in `hay` as a contiguous run of characters.
pub open spec fn occurs_in(needle: Seq<char>, hay: Seq<char>) -> bool {
    exists|i: int|
        0 <= i && i + needle.len() <= hay.len() && #[trigger] hay.subrange(i, i + needle.len())
            == needle
}

/// A text occurs in whatever is built around it.
pub proof fn lemma_occurs_between(before: Seq<char>, needle: Seq<char>, after: Seq<char>)
    ensures
        occurs_in(needle, before + needle + after),
{
    let hay = before + needle + after;
    let i = before.len() as int;
    assert(hay.subrange(i, i + needle.len()) =~= needle);
}

/// What occurs in a text still occurs in it when more is put around it.
pub proof fn lemma_occurs_within(before: Seq<char>, hay: Seq<char>, after: Seq<char>)
    ensures
        forall|needle: Seq<char>| #[trigger]
            occurs_in(needle, hay) ==> occurs_in(needle, before + hay + after),
{
    let around = before + hay + after;
    assert forall|needle: Seq<char>| #[trigger] occurs_in(needle, hay) implies occurs_in(
        needle,
        around,
    ) by {
        let i = choose|i: int|
            0 <= i && i + needle.len() <= hay.len() && #[trigger] hay.subrange(
                i,
                i + needle.len(),
            ) == needle;
        let j = before.len() + i;
        assert(around.subrange(j, j + needle.len()) =~= hay.subrange(i, i + needle.len()));
    }
}

/// Whether two texts hold the same characters.
pub fn same_text(a: &str, b: &str) -> (same: bool)
    ensures
        same == (a@ == b@),
{
    let left = a.to_owned();
    let right = b.to_owned();
    left == right
}

/// `a` followed by `b`.
pub fn join2(a: &str, b: &str) -> (out: String)
    ensures
        out@ == a@ + b@,
{
    let mut out = a.to_owned();
    out.append(b);
    out
}

/// Every text of a list, owned, in the same order.
pub fn owned_all(words: &[&str]) -> (list: Vec<String>)
    ensures
        list.deep_view() == words@.map_values(|word: &str| word@),
{
    let mut list: Vec<String> = Vec::new();
    let mut i: usize = 0;
    while i < words.len()
        invariant
            i <= words.len(),
            list.deep_view() == words@.take(i as int).map_values(|word: &str| word@),
        decreases words.len() - i,
    {
        let ghost before = list.deep_view();
        list.push(words[i].to_owned());
        assert(list.deep_view() =~= before.push(words[i as int]@));
        assert(words@.take(i + 1).map_values(|word: &str| word@) =~= before.push(
            words[i as int]@,
        ));
        i = i + 1;
    }
    assert(words@.take(words.len() as int) =~= words@);
    list
}

/// What `String::from_utf8_lossy` makes of a run of bytes.
pub uninterp spec fn utf8_lossy(bytes: Seq<u8>) -> Seq<char>;

/// Calls `String::from_utf8_lossy`: bytes that are UTF-8 become the text they
/// encode; of other bytes only that the same bytes give the same text.
#[verifier::external_body]
pub(crate) fn lossy_text(bytes: &[u8]) -> (out: String)
    ensures
        out@ == utf8_lossy(bytes@),
        vstd::utf8::valid_utf8(bytes@) ==> out@ == vstd::utf8::decode_utf8(bytes@),
{
    String::from_utf8_lossy(bytes).into_owned()
}

/// What a path prints as when formatted with `{:?}`.
pub uninterp spec fn path_debug(path: Seq<char>) -> Seq<char>;

/// Formats `std::path::Path::new(path)` with `{:?}`: the path between double
/// quotes, with the characters that need it escaped. Only that the same path
/// gives the same text is claimed.
#[verifier::external_body]
pub(crate) fn debug_text(path: &str) -> (out: String)
    ensures
        out@ == path_debug(path@),
{
    format!("{:?}", std::path::Path::new(path))
}

} // verus!
