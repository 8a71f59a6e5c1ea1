//! Laws that hold across whole sequences of updates, proved from
//! [`update_rel`] alone.

use crate::record::{
    description_units_of, name_units_of, padded_units, tick_of, update_rel, version_of,
    PoseBundle, SUPPORTED_VERSION,
};
use crate::layout::{DESCRIPTION_UNITS, NAME_UNITS};
use crate::wide::utf16_units;
use crate::record::{application_description, application_name, wrap_inc};
use vstd::arithmetic::div_mod::{
    lemma_add_mod_noop, lemma_mod_bound, lemma_mod_self_0, lemma_small_mod,
};
use vstd::prelude::*;

verus! {

/// `records` walks through `bundles` one successful update at a time:
/// `records[0]` is the image before the first update and `records[i + 1]`
/// the image after carrying in `bundles[i]`.
pub open spec fn update_chain(records: Seq<Seq<u8>>, bundles: Seq<PoseBundle>) -> bool {
    &&& records.len() == bundles.len() + 1
    &&& forall|i: int|
        0 <= i < bundles.len() ==> #[trigger] update_rel(records[i], bundles[i], records[i + 1])
}

/// Law: after `N` successful updates the tick counter equals its prior
/// value plus `N`, modulo 2^32.
pub proof fn lemma_tick_counts_updates(records: Seq<Seq<u8>>, bundles: Seq<PoseBundle>)
    requires
        update_chain(records, bundles),
    ensures
        tick_of(records[records.len() - 1]) == (tick_of(records[0]) + bundles.len())
            % 0x1_0000_0000,
    decreases bundles.len(),
{
    let m = 0x1_0000_0000int;
    if bundles.len() == 0 {
        lemma_small_mod(tick_of(records[0]) as nat, m as nat);
    } else {
        let n = bundles.len() as int;
        let head = records.drop_last();
        let steps = bundles.drop_last();
        assert forall|i: int| 0 <= i < steps.len() implies #[trigger] update_rel(
            head[i],
            steps[i],
            head[i + 1],
        ) by {
            assert(update_rel(records[i], bundles[i], records[i + 1]));
        }
        lemma_tick_counts_updates(head, steps);
        let t0 = tick_of(records[0]) as int;
        let prev = tick_of(records[n - 1]) as int;
        assert(prev == (t0 + n - 1) % m);
        assert(update_rel(records[n - 1], bundles[n - 1], records[n]));
        assert(tick_of(records[n]) == wrap_inc(tick_of(records[n - 1])));
        lemma_mod_bound(t0 + n - 1, m);
        lemma_add_mod_noop(t0 + n - 1, 1, m);
        lemma_small_mod(1nat, m as nat);
        if prev == m - 1 {
            lemma_mod_self_0(m);
        } else {
            lemma_small_mod((prev + 1) as nat, m as nat);
        }
    }
}

/// Law: the protocol version transitions to 2 with the first update and
/// never changes again, and the static name and description fields are
/// byte-identical after the first update and after every later one; when
/// the record did not yet carry version 2, the first update is the one
/// that writes them.
pub proof fn lemma_static_fields_write_once(records: Seq<Seq<u8>>, bundles: Seq<PoseBundle>)
    requires
        update_chain(records, bundles),
        bundles.len() >= 1,
    ensures
        forall|i: int| 1 <= i < records.len() ==> version_of(#[trigger] records[i])
            == SUPPORTED_VERSION,
        forall|i: int| 1 <= i < records.len() ==> name_units_of(#[trigger] records[i])
            == name_units_of(records[1]),
        forall|i: int| 1 <= i < records.len() ==> description_units_of(#[trigger] records[i])
            == description_units_of(records[1]),
        version_of(records[0]) != SUPPORTED_VERSION ==> name_units_of(records[1]) == padded_units(
            utf16_units(application_name()),
            NAME_UNITS as int,
        ) && description_units_of(records[1]) == padded_units(
            utf16_units(application_description()),
            DESCRIPTION_UNITS as int,
        ),
    decreases bundles.len(),
{
    let z: int = 0;
    assert(update_rel(records[z], bundles[z], records[z + 1]));
    if bundles.len() > 1 {
        let n = bundles.len() as int;
        let head = records.drop_last();
        let steps = bundles.drop_last();
        assert forall|i: int| 0 <= i < steps.len() implies #[trigger] update_rel(
            head[i],
            steps[i],
            head[i + 1],
        ) by {
            assert(update_rel(records[i], bundles[i], records[i + 1]));
        }
        lemma_static_fields_write_once(head, steps);
        let k: int = n - 1;
        assert(update_rel(records[k], bundles[k], records[k + 1]));
        assert(head[n - 1] == records[n - 1]);
        assert(version_of(head[n - 1]) == SUPPORTED_VERSION);
        assert(version_of(records[n - 1]) == SUPPORTED_VERSION);
        assert forall|i: int| 1 <= i < records.len() implies version_of(#[trigger] records[i])
            == SUPPORTED_VERSION by {
            if i < n {
                assert(version_of(head[i]) == SUPPORTED_VERSION);
            }
        }
        assert forall|i: int| 1 <= i < records.len() implies name_units_of(#[trigger] records[i])
            == name_units_of(records[1]) by {
            if i < n {
                assert(name_units_of(head[i]) == name_units_of(head[1]));
            } else {
                assert(name_units_of(head[n - 1]) == name_units_of(head[1]));
            }
        }
        assert forall|i: int| 1 <= i < records.len() implies description_units_of(
            #[trigger] records[i],
        ) == description_units_of(records[1]) by {
            if i < n {
                assert(description_units_of(head[i]) == description_units_of(head[1]));
            } else {
                assert(description_units_of(head[n - 1]) == description_units_of(head[1]));
            }
        }
    }
}

} // verus!
