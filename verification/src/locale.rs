//! The check that the locale declares UTF-8.
//!
//! What is recorded is only meaningful as text if the child writes UTF-8,
//! so recording is refused in any other locale.

use vstd::prelude::*;
use crate::error::Error;

verus! {

/// `b` with an ASCII capital letter replaced by its small letter.
pub open spec fn spec_fold(b: u8) -> u8 {
    if 65 <= b <= 90 {
        (b + 32) as u8
    } else {
        b
    }
}

/// `b` with an ASCII capital letter replaced by its small letter.
#[verifier::when_used_as_spec(spec_fold)]
pub fn fold(b: u8) -> (r: u8)
    ensures
        r == spec_fold(b),
{
    if 65 <= b && b <= 90 {
        b + 32
    } else {
        b
    }
}

/// Whether `needle` stands in `hay` at position `at`, letter case in `hay` aside.
pub open spec fn occurs_at(hay: Seq<u8>, needle: Seq<u8>, at: int) -> bool {
    &&& 0 <= at
    &&& at + needle.len() <= hay.len()
    &&& forall|k: int| 0 <= k < needle.len() ==> spec_fold(#[trigger] hay[at + k]) == needle[k]
}

/// Whether `needle` stands somewhere in `hay`, letter case in `hay` aside.
pub open spec fn mentions(hay: Seq<u8>, needle: Seq<u8>) -> bool {
    exists|at: int| occurs_at(hay, needle, at)
}

/// The bytes of `utf-8`.
pub open spec fn utf8_dashed() -> Seq<u8> {
    seq![117u8, 116u8, 102u8, 45u8, 56u8]
}

/// The bytes of `utf8`.
pub open spec fn utf8_plain() -> Seq<u8> {
    seq![117u8, 116u8, 102u8, 56u8]
}

/// Whether a locale's name declares UTF-8: it holds `utf-8` or `utf8`, in any letter case.
pub open spec fn declares_utf8(locale: Seq<u8>) -> bool {
    mentions(locale, utf8_dashed()) || mentions(locale, utf8_plain())
}

/// Whether a variable decides the locale: it is set, and not to the empty string.
pub open spec fn decides(variable: Option<&[u8]>) -> bool {
    variable matches Some(value) && value@.len() > 0
}

/// The locale in effect: the value of the first of `LC_ALL`, `LC_CTYPE` and
/// `LANG` that is set to something.
pub open spec fn effective_locale(
    lc_all: Option<&[u8]>,
    lc_ctype: Option<&[u8]>,
    lang: Option<&[u8]>,
) -> Option<Seq<u8>> {
    if decides(lc_all) {
        Some(lc_all->0@)
    } else if decides(lc_ctype) {
        Some(lc_ctype->0@)
    } else if decides(lang) {
        Some(lang->0@)
    } else {
        None
    }
}

fn occurs_here(hay: &[u8], needle: &[u8], at: usize) -> (b: bool)
    requires
        at + needle@.len() <= hay@.len(),
    ensures
        b == occurs_at(hay@, needle@, at as int),
{
    let n: usize = hay.len();
    let mut k: usize = 0;
    while k < needle.len()
        invariant
            at + needle@.len() <= hay@.len(),
            n == hay@.len(),
            k <= needle@.len(),
            forall|j: int| 0 <= j < k ==> spec_fold(#[trigger] hay@[at + j]) == needle@[j],
        decreases needle@.len() - k,
    {
        if fold(hay[at + k]) != needle[k] {
            assert(spec_fold(hay@[at + k]) != needle@[k as int]);
            return false;
        }
        k = k + 1;
    }
    true
}

/// Whether `needle` stands somewhere in `hay`, letter case in `hay` aside.
pub fn mentions_folded(hay: &[u8], needle: &[u8]) -> (b: bool)
    ensures
        b == mentions(hay@, needle@),
{
    if needle.len() > hay.len() {
        assert forall|at: int| !occurs_at(hay@, needle@, at) by {}
        return false;
    }
    let last: usize = hay.len() - needle.len();
    let mut at: usize = 0;
    while at < last
        invariant
            last == hay@.len() - needle@.len(),
            at <= last,
            forall|p: int| 0 <= p < at ==> !occurs_at(hay@, needle@, p),
        decreases last - at,
    {
        if occurs_here(hay, needle, at) {
            return true;
        }
        at = at + 1;
    }
    let found: bool = occurs_here(hay, needle, last);
    if !found {
        assert forall|p: int| !occurs_at(hay@, needle@, p) by {}
    }
    found
}

/// Whether a locale's name declares UTF-8.
pub fn is_utf8_locale(locale: &[u8]) -> (b: bool)
    ensures
        b == declares_utf8(locale@),
{
    let dashed: [u8; 5] = [117, 116, 102, 45, 56];
    let plain: [u8; 4] = [117, 116, 102, 56];
    assert(dashed@ =~= utf8_dashed());
    assert(plain@ =~= utf8_plain());
    mentions_folded(locale, dashed.as_slice()) || mentions_folded(locale, plain.as_slice())
}

fn first_set<'a>(lc_all: Option<&'a [u8]>, lc_ctype: Option<&'a [u8]>, lang: Option<&'a [u8]>) -> (r:
    Option<&'a [u8]>)
    ensures
        match r {
            Some(value) => effective_locale(lc_all, lc_ctype, lang) == Some(value@),
            None => effective_locale(lc_all, lc_ctype, lang) is None,
        },
{
    if let Some(value) = lc_all {
        if value.len() > 0 {
            return Some(value);
        }
    }
    if let Some(value) = lc_ctype {
        if value.len() > 0 {
            return Some(value);
        }
    }
    if let Some(value) = lang {
        if value.len() > 0 {
            return Some(value);
        }
    }
    None
}

/// Succeeds if the locale in effect declares UTF-8 and fails with
/// `NonUtf8Locale` otherwise, also when no variable sets a locale. The
/// arguments are the values of `LC_ALL`, `LC_CTYPE` and `LANG`.
pub fn check_utf8_locale(lc_all: Option<&[u8]>, lc_ctype: Option<&[u8]>, lang: Option<&[u8]>) -> (r:
    Result<(), Error>)
    ensures
        r is Ok <==> (effective_locale(lc_all, lc_ctype, lang) matches Some(locale)
            && declares_utf8(locale)),
        r is Err ==> r == Err::<(), Error>(Error::NonUtf8Locale),
{
    match first_set(lc_all, lc_ctype, lang) {
        Some(locale) => {
            if is_utf8_locale(locale) {
                Ok(())
            } else {
                Err(Error::NonUtf8Locale)
            }
        },
        None => Err(Error::NonUtf8Locale),
    }
}

} // verus!
