//! A model of the credential store, and the laws of the vault over it.
//!
//! The store is taken to hold at most one text at each place, to hand back
//! what was last written there, and to report that there is no entry where
//! nothing is. Against such a store the operations of [`crate::vault`] are
//! run here as the program around this crate runs them: ask, then hand the
//! answer back. Every law is proved for all contents of the store, all slots
//! and all records.

use vstd::prelude::*;
use crate::record::{parsed, RecordView, SchemaError};
use crate::slot::{lemma_places_disjoint, Place, Slot};
use crate::vault::{clear_result, load_result, save_plan, save_result, ErrorView, FaultView};

verus! {

/// What the store holds: the text at each place that has one.
pub type Contents = Map<Place, Seq<char>>;

/// The store's answer to a read.
pub open spec fn read_reply(contents: Contents, place: Place) -> Result<Seq<char>, FaultView> {
    if contents.contains_key(place) {
        Ok(contents[place])
    } else {
        Err(FaultView::NoEntry)
    }
}

/// The store's answer to a delete.
pub open spec fn delete_reply(contents: Contents, place: Place) -> Result<(), FaultView> {
    if contents.contains_key(place) {
        Ok(())
    } else {
        Err(FaultView::NoEntry)
    }
}

/// A save, run against the store: the contents afterwards, and the answer to
/// the caller. A record that cannot be written leaves the store as it was.
pub open spec fn save(contents: Contents, record: RecordView) -> (Contents, Result<(), ErrorView>) {
    match save_plan(record) {
        Ok(write) => (contents.insert(write.place, write.payload), save_result(Ok(()))),
        Err(error) => (contents, Err(error)),
    }
}

/// A load, run against the store.
pub open spec fn load(contents: Contents, slot: Slot) -> Result<Option<RecordView>, ErrorView> {
    load_result(slot, read_reply(contents, slot.place()))
}

/// A clear, run against the store: the contents afterwards, and the answer
/// to the caller.
pub open spec fn clear(contents: Contents, slot: Slot) -> (Contents, Result<(), ErrorView>) {
    (contents.remove(slot.place()), clear_result(delete_reply(contents, slot.place())))
}

/// The store is sound where every text in the place of a slot is a record of
/// that slot.
pub open spec fn sound(contents: Contents) -> bool {
    forall|slot: Slot| #[trigger]
        contents.contains_key(slot.place()) ==> parsed(slot, contents[slot.place()]) is Ok
}

/// The operations keep a sound store sound, and from a sound store every
/// load succeeds.
pub proof fn law_store_stays_sound(contents: Contents, record: RecordView, slot: Slot)
    ensures
        sound(contents) ==> sound(save(contents, record).0),
        sound(contents) ==> sound(clear(contents, slot).0),
        sound(contents) ==> load(contents, slot) is Ok,
{
    if sound(contents) {
        assert forall|other: Slot| #[trigger]
            save(contents, record).0.contains_key(other.place()) implies parsed(
            other,
            save(contents, record).0[other.place()],
        ) is Ok by {
            lemma_places_disjoint(other, record.slot());
        }
        assert forall|other: Slot| #[trigger]
            clear(contents, slot).0.contains_key(other.place()) implies parsed(
            other,
            clear(contents, slot).0[other.place()],
        ) is Ok by {
            lemma_places_disjoint(other, slot);
        }
    }
}

/// A record that was saved is the record that is loaded, with each optional
/// field present or absent as it was.
pub proof fn law_load_after_save(contents: Contents, record: RecordView)
    ensures
        save(contents, record).1 is Ok ==> load(save(contents, record).0, record.slot()) == Ok::<
            Option<RecordView>,
            ErrorView,
        >(Some(record)),
{
}

/// A slot that holds nothing loads as no record, which is no error; and so
/// does any slot once it is cleared.
pub proof fn law_load_empty_slot(contents: Contents, slot: Slot)
    ensures
        !contents.contains_key(slot.place()) ==> load(contents, slot) == Ok::<
            Option<RecordView>,
            ErrorView,
        >(None),
        load(clear(contents, slot).0, slot) == Ok::<Option<RecordView>, ErrorView>(None),
{
}

/// Clearing succeeds whether or not the slot held anything, so clearing
/// twice succeeds twice; the second time changes nothing.
pub proof fn law_clear_twice(contents: Contents, slot: Slot)
    ensures
        clear(contents, slot).1 == Ok::<(), ErrorView>(()),
        clear(clear(contents, slot).0, slot).1 == Ok::<(), ErrorView>(()),
        clear(clear(contents, slot).0, slot).0 == clear(contents, slot).0,
{
    assert(contents.remove(slot.place()).remove(slot.place()) =~= contents.remove(slot.place()));
}

/// Of two records saved to one slot the second is the one that is loaded:
/// the slot holds the text of the second and nothing of the first.
pub proof fn law_save_overwrites(contents: Contents, first: RecordView, second: RecordView)
    ensures
        first.slot() == second.slot() && save(save(contents, first).0, second).1 is Ok ==> load(
            save(save(contents, first).0, second).0,
            second.slot(),
        ) == Ok::<Option<RecordView>, ErrorView>(Some(second)),
        first.slot() == second.slot() && save(save(contents, first).0, second).1 is Ok ==> save(
            save(contents, first).0,
            second,
        ).0 == save(contents, second).0,
{
    if first.slot() == second.slot() && save(save(contents, first).0, second).1 is Ok {
        let write = save_plan(second)->Ok_0;
        assert(save(contents, first).0.insert(write.place, write.payload) =~= contents.insert(
            write.place,
            write.payload,
        ));
    }
}

/// Saving to one slot, or clearing it, never changes what another slot
/// loads.
pub proof fn law_slots_isolated(contents: Contents, record: RecordView, other: Slot)
    ensures
        other != record.slot() ==> load(save(contents, record).0, other) == load(contents, other),
        other != record.slot() ==> load(clear(contents, record.slot()).0, other) == load(
            contents,
            other,
        ),
{
    lemma_places_disjoint(other, record.slot());
}

/// A stored text that is not the slot's record loads as a schema error:
/// never as no record, and never as a record made up for the occasion.
pub proof fn law_corruption_is_reported(contents: Contents, slot: Slot, text: Seq<char>)
    ensures
        parsed(slot, text) matches Err(flaw) ==> load(contents.insert(slot.place(), text), slot)
            == Err::<Option<RecordView>, ErrorView>(ErrorView::Schema(flaw)),
{
}

} // verus!
