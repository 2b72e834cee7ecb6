//! What holds of a whole run of creations and breedings, and of the order of
//! the parents in a breeding.

use crate::genome::{crossover, lemma_crossover_swap_differs};
use crate::pallet::{create_error, next_index};
use crate::registry::{KittyIndex, Registry, RegistryView};
use vstd::prelude::*;

verus! {

/// One successful creation or breeding: the genome that was stored and the
/// account that it was stored for.
pub struct Birth {
    pub genome: Seq<u8>,
    pub owner: Seq<u8>,
}

/// The registry `s` after the births of `births`, in their order: each is
/// stored under the number that was next when its turn came.
pub open spec fn after_births(s: RegistryView, births: Seq<Birth>) -> RegistryView
    decreases births.len(),
{
    if births.len() == 0 {
        s
    } else {
        let before = after_births(s, births.drop_last());
        before.born(next_index(before), births.last().genome, births.last().owner)
    }
}

/// Whether `s` holds the kitty of `birth` under `id`, with its owner.
pub open spec fn records(s: RegistryView, id: KittyIndex, birth: Birth) -> bool {
    &&& s.kitties.contains_key(id)
    &&& s.kitties[id] == birth.genome
    &&& s.owned_by(id, birth.owner)
}

/// The number under which birth `i` of `births` was stored.
pub open spec fn assigned(s: RegistryView, births: Seq<Birth>, i: int) -> KittyIndex {
    next_index(after_births(s, births.take(i)))
}

/// A run of births that the count has room for never meets a refusal, and
/// hands out the numbers that follow the count one by one, without a gap and
/// without a repeat: birth `i` gets the count plus `i` plus one, so from the
/// empty registry the numbers are 1, 2, 3 and so on. Afterwards the count has
/// grown by the length of the run and every kitty of the run is found under
/// its number with its owner. A consistent registry stays consistent and
/// keeps everything that it stored before.
pub proof fn lemma_births_in_sequence(s: RegistryView, births: Seq<Birth>)
    requires
        s.count + births.len() <= u32::MAX,
    ensures
        after_births(s, births).count == s.count + births.len(),
        forall|i: int|
            0 <= i < births.len() ==> {
                &&& create_error(#[trigger] after_births(s, births.take(i))) is None
                &&& assigned(s, births, i) == s.count + i + 1
            },
        forall|i: int|
            0 <= i < births.len() ==> #[trigger] records(
                after_births(s, births),
                (s.count + i + 1) as KittyIndex,
                births[i],
            ),
        s.wf() ==> after_births(s, births).wf(),
        s.wf() ==> forall|id: KittyIndex|
            s.kitties.contains_key(id) ==> {
                &&& #[trigger] after_births(s, births).kitties.contains_key(id)
                &&& after_births(s, births).kitties[id] == s.kitties[id]
                &&& after_births(s, births).owners[id] == s.owners[id]
            },
    decreases births.len(),
{
    if births.len() > 0 {
        let earlier = births.drop_last();
        lemma_births_in_sequence(s, earlier);
        let before = after_births(s, earlier);
        let after = after_births(s, births);
        let last = (births.len() - 1) as int;
        assert(after == before.born(
            next_index(before),
            births.last().genome,
            births.last().owner,
        ));
        assert(births.take(last) =~= earlier);
        assert forall|i: int| 0 <= i < births.len() implies {
            &&& create_error(#[trigger] after_births(s, births.take(i))) is None
            &&& assigned(s, births, i) == s.count + i + 1
        } by {
            if i < last {
                assert(births.take(i) =~= earlier.take(i));
            }
        }
        assert forall|i: int| 0 <= i < births.len() implies #[trigger] records(
            after,
            (s.count + i + 1) as KittyIndex,
            births[i],
        ) by {
            if i < last {
                assert(births[i] == earlier[i]);
                assert(records(before, (s.count + i + 1) as KittyIndex, earlier[i]));
            }
        }
    }
}

/// From the empty registry, birth `i` of any run gets the number `i + 1`.
pub proof fn lemma_numbers_start_at_one(births: Seq<Birth>, i: int)
    requires
        births.len() <= u32::MAX,
        0 <= i < births.len(),
    ensures
        assigned(RegistryView::empty(), births, i) == i + 1,
        after_births(RegistryView::empty(), births).kitties.dom() == Set::new(
            |id: KittyIndex| 1 <= id <= births.len(),
        ),
{
    lemma_births_in_sequence(RegistryView::empty(), births);
}

/// Breeding two kitties of a registry in the other order, under the same
/// mask, gives the same child genome only when both parents carry the same
/// genome: whatever the mask, all ones and all zeros included.
pub proof fn lemma_parent_order_matters(
    registry: &Registry,
    kitty_id_1: KittyIndex,
    kitty_id_2: KittyIndex,
    selector: Seq<u8>,
)
    requires
        registry@.kitties.contains_key(kitty_id_1),
        registry@.kitties.contains_key(kitty_id_2),
    ensures
        crossover(selector, registry@.kitties[kitty_id_1], registry@.kitties[kitty_id_2])
            == crossover(selector, registry@.kitties[kitty_id_2], registry@.kitties[kitty_id_1])
            <==> registry@.kitties[kitty_id_1] == registry@.kitties[kitty_id_2],
{
    registry.lemma_bounds();
    lemma_crossover_swap_differs(
        selector,
        registry@.kitties[kitty_id_1],
        registry@.kitties[kitty_id_2],
    );
}

} // verus!
