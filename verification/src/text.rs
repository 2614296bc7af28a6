//! Plain operations on string slices and on text that is borrowed or owned.

use std::borrow::Cow;
use vstd::prelude::*;
use vstd::string::StringSliceAdditionalSpecFns;
use vstd::utf8::encode_utf8_decode_utf8;

verus! {

/// Whether two string slices hold the same characters.
pub fn str_eq(a: &str, b: &str) -> (r: bool)
    ensures
        r == (a@ == b@),
{
    let x = a.as_bytes();
    let y = b.as_bytes();
    proof {
        // The encoding can be undone, so equal bytes mean equal characters.
        encode_utf8_decode_utf8(a@);
        encode_utf8_decode_utf8(b@);
    }
    if x.len() != y.len() {
        return false;
    }
    let mut i: usize = 0;
    while i < x.len()
        invariant
            i <= x.len(),
            x.len() == y.len(),
            x@ == a.spec_bytes(),
            y@ == b.spec_bytes(),
            forall|j: int| 0 <= j < i ==> x@[j] == y@[j],
        decreases x.len() - i,
    {
        if x[i] != y[i] {
            assert(x@[i as int] != y@[i as int]);
            return false;
        }
        i = i + 1;
    }
    assert(x@ =~= y@);
    true
}

/// The characters of a text, whether it borrows them or owns them.
pub fn cow_str<'s, 'a>(text: &'s Cow<'a, str>) -> (s: &'s str)
    ensures
        s@ == text@,
{
    match text {
        Cow::Borrowed(b) => b,
        Cow::Owned(o) => o.as_str(),
    }
}

/// A copy of a text that owns its characters.
pub fn cow_owned<'a>(text: &Cow<'a, str>) -> (r: Cow<'static, str>)
    ensures
        r@ == text@,
        r is Owned,
{
    Cow::Owned(cow_str(text).to_owned())
}

/// Whether two texts hold the same characters, whoever owns them.
pub fn cow_eq<'a, 'b>(a: &Cow<'a, str>, b: &Cow<'b, str>) -> (r: bool)
    ensures
        r == (a@ == b@),
{
    str_eq(cow_str(a), cow_str(b))
}

/// `unit` written `count` times over.
pub open spec fn repeated(unit: Seq<char>, count: nat) -> Seq<char>
    decreases count,
{
    if count == 0 {
        Seq::empty()
    } else {
        repeated(unit, (count - 1) as nat) + unit
    }
}

/// Appends `unit` to `out`, `count` times over.
pub fn append_repeated(out: &mut String, unit: &str, count: usize)
    ensures
        final(out)@ == old(out)@ + repeated(unit@, count as nat),
{
    let mut i: usize = 0;
    while i < count
        invariant
            i <= count,
            out@ == old(out)@ + repeated(unit@, i as nat),
        decreases count - i,
    {
        vstd::string::StringExecFns::append(out, unit);
        i = i + 1;
        assert(out@ == old(out)@ + repeated(unit@, i as nat)) by {
            assert(repeated(unit@, i as nat) == repeated(unit@, (i - 1) as nat) + unit@);
            assert(out@ =~= old(out)@ + (repeated(unit@, (i - 1) as nat) + unit@));
        }
    }
}

} // verus!
