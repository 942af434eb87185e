use vstd::prelude::*;
use crate::tarix::Tarix;

verus! {

/// Relies on std's string formatting (`alloc::fmt::format`): the result
/// is the first string, one space, then the second.
#[verifier::external_body]
pub(crate) fn ad_soyad_birlesdir(ad: &str, soyad: &str) -> (r: String)
    ensures
        r@ == ad@ + seq![' '] + soyad@,
{
    format!("{} {}", ad, soyad)
}

/// Relies on `uuid::Uuid::new_v4` and its hyphenated lowercase display:
/// the result is the given prefix, a dash, and the first eight
/// characters of a fresh random identifier — hexadecimal digits,
/// uppercased. Which eight digits come back is random; nothing more is
/// assumed of them.
#[verifier::external_body]
pub(crate) fn tesadufi_nomre(prefiks: &str) -> (r: String)
    ensures
        r@.len() == prefiks@.len() + 9,
        r@.subrange(0, prefiks@.len() as int) == prefiks@,
        r@[prefiks@.len() as int] == '-',
        forall|i: int|
            prefiks@.len() + 1 <= i < r@.len() ==> ('0' <= #[trigger] r@[i] <= '9' || 'A' <= r@[i]
                <= 'F'),
{
    let id = uuid::Uuid::new_v4().to_string();
    format!("{}-{}", prefiks, id[..8].to_uppercase())
}

/// Relies on `chrono::Local::now` and the `Datelike` accessors: the
/// month is 1 to 12 and the day of month 1 to 31. Which date comes
/// back depends on the clock; nothing more is assumed of it.
#[verifier::external_body]
pub fn bugun() -> (r: Tarix)
    ensures
        1 <= r.ay <= 12,
        1 <= r.gun <= 31,
{
    let indi = chrono::Local::now();
    Tarix {
        il: chrono::Datelike::year(&indi) as i64,
        ay: chrono::Datelike::month(&indi) as i64,
        gun: chrono::Datelike::day(&indi) as i64,
    }
}

} // verus!
