use vstd::prelude::*;
use crate::model::{HereketSetri, QaytarmaElementi, QaytarmaSetri, SatisElementi, StokSetri};
use crate::hesabat::{iade_durumu_spec, qaytarilan_miqdar, satilan_miqdar, satisin_qaytarmasi_var,
    IadeDurumu};
use crate::stok::{lemma_hereket_sayi_push, lemma_stok_tetbiq, stok_tetbiq, StokDuzelisi};
use crate::store::{hereket_sayi, i64_sigar, stok_miqdari, stoklar_tek_seq};

verus! {

/// The stock table after a whole sequence of adjustments, applied in
/// order through the ledger primitive's transformation.
pub open spec fn duzelisleri_tetbiq(
    s: Seq<StokSetri>,
    ds: Seq<StokDuzelisi>,
    minimum: int,
    novbeti: int,
) -> Seq<StokSetri>
    decreases ds.len(),
{
    if ds.len() == 0 {
        s
    } else {
        duzelisleri_tetbiq(
            stok_tetbiq(s, ds[0].mehsul_id, ds[0].olcu_id, ds[0].delta, minimum, novbeti),
            ds.drop_first(),
            minimum,
            novbeti + 1,
        )
    }
}

/// The summed deltas of the adjustments that name pair (m, o).
pub open spec fn duzelis_cemi(ds: Seq<StokDuzelisi>, m: int, o: int) -> int
    decreases ds.len(),
{
    if ds.len() == 0 {
        0
    } else {
        (if ds[0].mehsul_id == m && ds[0].olcu_id == o {
            ds[0].delta
        } else {
            0
        }) + duzelis_cemi(ds.drop_first(), m, o)
    }
}

/// How many of the adjustments name pair (m, o).
pub open spec fn duzelis_sayi(ds: Seq<StokDuzelisi>, m: int, o: int) -> int
    decreases ds.len(),
{
    if ds.len() == 0 {
        0
    } else {
        duzelis_sayi(ds.drop_last(), m, o) + if ds.last().mehsul_id == m && ds.last().olcu_id
            == o {
            1int
        } else {
            0int
        }
    }
}

/// Every step of the sequence keeps its arithmetic inside the store's
/// 64-bit fields.
pub open spec fn duzelisler_sigar(
    s: Seq<StokSetri>,
    ds: Seq<StokDuzelisi>,
    minimum: int,
    novbeti: int,
) -> bool
    decreases ds.len(),
{
    ds.len() == 0 || {
        &&& i64_sigar(ds[0].mehsul_id)
        &&& i64_sigar(ds[0].olcu_id)
        &&& i64_sigar(ds[0].delta)
        &&& i64_sigar(stok_miqdari(s, ds[0].mehsul_id, ds[0].olcu_id) + ds[0].delta)
        &&& duzelisler_sigar(
            stok_tetbiq(s, ds[0].mehsul_id, ds[0].olcu_id, ds[0].delta, minimum, novbeti),
            ds.drop_first(),
            minimum,
            novbeti + 1,
        )
    }
}

/// For every sequence of stock adjustments on a (product, size) pair,
/// the final stored quantity equals the initial quantity — absence
/// counting as zero — plus the sum of all applied deltas, and the
/// one-row-per-pair invariant is preserved throughout. Together with
/// [`kanun_hereket_sayi`] this is the ledger's audit guarantee: what
/// the stock table shows is exactly what the adjustments did.
pub proof fn kanun_stok_ardicilligi(
    s: Seq<StokSetri>,
    ds: Seq<StokDuzelisi>,
    minimum: int,
    novbeti: int,
    m: int,
    o: int,
)
    requires
        stoklar_tek_seq(s),
        duzelisler_sigar(s, ds, minimum, novbeti),
        i64_sigar(minimum),
        i64_sigar(novbeti),
        i64_sigar(novbeti + ds.len()),
    ensures
        stoklar_tek_seq(duzelisleri_tetbiq(s, ds, minimum, novbeti)),
        stok_miqdari(duzelisleri_tetbiq(s, ds, minimum, novbeti), m, o) == stok_miqdari(s, m, o)
            + duzelis_cemi(ds, m, o),
    decreases ds.len(),
{
    if ds.len() > 0 {
        lemma_stok_tetbiq(s, ds[0].mehsul_id, ds[0].olcu_id, ds[0].delta, minimum, novbeti);
        let s2 = stok_tetbiq(s, ds[0].mehsul_id, ds[0].olcu_id, ds[0].delta, minimum, novbeti);
        kanun_stok_ardicilligi(s2, ds.drop_first(), minimum, novbeti + 1, m, o);
        if ds[0].mehsul_id == m && ds[0].olcu_id == o {
            assert(stok_miqdari(s2, m, o) == stok_miqdari(s, m, o) + ds[0].delta);
        } else {
            assert(stok_miqdari(s2, m, o) == stok_miqdari(s, m, o));
        }
    }
}

/// One audit row per adjustment, each carrying its adjustment's pair.
pub open spec fn cutluk_uygunlugu(rows: Seq<HereketSetri>, ds: Seq<StokDuzelisi>) -> bool {
    &&& rows.len() == ds.len()
    &&& forall|k: int|
        0 <= k < rows.len() ==> (#[trigger] rows[k]).mehsul_id == ds[k].mehsul_id && rows[k].olcu_id
            == ds[k].olcu_id
}

/// For every sequence of stock adjustments, appending the audit rows
/// they write raises a pair's movement count by exactly the number of
/// adjustments applied to that pair.
pub proof fn kanun_hereket_sayi(
    h: Seq<HereketSetri>,
    rows: Seq<HereketSetri>,
    ds: Seq<StokDuzelisi>,
    m: int,
    o: int,
)
    requires
        cutluk_uygunlugu(rows, ds),
    ensures
        hereket_sayi(h + rows, m, o) == hereket_sayi(h, m, o) + duzelis_sayi(ds, m, o),
    decreases rows.len(),
{
    if rows.len() == 0 {
        assert(h + rows =~= h);
    } else {
        assert(cutluk_uygunlugu(rows.drop_last(), ds.drop_last()));
        kanun_hereket_sayi(h, rows.drop_last(), ds.drop_last(), m, o);
        lemma_hereket_sayi_push(h + rows.drop_last(), rows.last());
        assert((h + rows.drop_last()).push(rows.last()) =~= h + rows);
        assert(rows.last().mehsul_id == ds.last().mehsul_id && rows.last().olcu_id
            == ds.last().olcu_id);
    }
}

/// A sale's derived return status is `Tam` (fully returned) exactly
/// when some return references it and the cumulative returned quantity
/// reaches the cumulative sold quantity; `Qismen` (partial) exactly
/// when some return references it but the returned quantity falls
/// short; and `Yoxdur` (none) exactly when no return references it.
pub proof fn kanun_iade_durumu(
    qs: Seq<QaytarmaSetri>,
    qel: Seq<QaytarmaElementi>,
    el: Seq<SatisElementi>,
    sid: int,
)
    ensures
        iade_durumu_spec(qs, qel, el, sid) == IadeDurumu::Yoxdur <==> !satisin_qaytarmasi_var(
            qs,
            sid,
        ),
        iade_durumu_spec(qs, qel, el, sid) == IadeDurumu::Tam <==> (satisin_qaytarmasi_var(qs, sid)
            && qaytarilan_miqdar(qs, qel, qel.len() as int, sid) >= satilan_miqdar(
            el,
            el.len() as int,
            sid,
        )),
        iade_durumu_spec(qs, qel, el, sid) == IadeDurumu::Qismen <==> (satisin_qaytarmasi_var(
            qs,
            sid,
        ) && qaytarilan_miqdar(qs, qel, qel.len() as int, sid) < satilan_miqdar(
            el,
            el.len() as int,
            sid,
        )),
{
}

} // verus!
