//! The vault operations: save, load and clear, one slot at a time.
//!
//! The credential store itself is out of reach of this crate: the program
//! around it makes the calls. Each operation is therefore cut at the call.
//! What comes before the call says what to ask of the store; what comes after
//! takes the store's answer and says what it means. An empty slot is no
//! error: a read that finds nothing means that nothing is configured yet, and
//! a delete that finds nothing has nothing left to do.
//!
//! [`crate::store`] runs the operations against a store that keeps its word,
//! and shows that together they behave as a vault should.

use vstd::prelude::*;
use crate::record::{parsed, seen, written, RecordView, SchemaError, SecretRecord};
use crate::slot::{Address, Place, Slot};

verus! {

/// How a call of the credential store failed.
#[derive(Clone, Debug, PartialEq, Eq)]
pub enum StoreFault {
    /// The store holds nothing at the address.
    NoEntry,
    /// The address could not be resolved: the store is out of reach or does
    /// not take it. The text is the store's.
    Unaddressable(String),
    /// The store turned the call down for any other reason. The text is the
    /// store's.
    Other(String),
}

/// A [`StoreFault`] with its text as a character sequence.
pub enum FaultView {
    NoEntry,
    Unaddressable(Seq<char>),
    Other(Seq<char>),
}

impl View for StoreFault {
    type V = FaultView;

    open spec fn view(&self) -> FaultView {
        match self {
            StoreFault::NoEntry => FaultView::NoEntry,
            StoreFault::Unaddressable(text) => FaultView::Unaddressable(text@),
            StoreFault::Other(text) => FaultView::Other(text@),
        }
    }
}

impl DeepView for StoreFault {
    type V = FaultView;

    open spec fn deep_view(&self) -> FaultView {
        self@
    }
}

/// Why an operation of the vault failed.
#[derive(Clone, Debug, PartialEq, Eq)]
pub enum VaultError {
    /// The slot's address could not be resolved.
    Address(String),
    /// The store turned the call down.
    Store(String),
    /// The record could not be written, or the stored text is no record.
    Schema(SchemaError),
}

/// A [`VaultError`] with its text as a character sequence.
pub enum ErrorView {
    Address(Seq<char>),
    Store(Seq<char>),
    Schema(SchemaError),
}

impl View for VaultError {
    type V = ErrorView;

    open spec fn view(&self) -> ErrorView {
        match self {
            VaultError::Address(text) => ErrorView::Address(text@),
            VaultError::Store(text) => ErrorView::Store(text@),
            VaultError::Schema(flaw) => ErrorView::Schema(*flaw),
        }
    }
}

impl DeepView for VaultError {
    type V = ErrorView;

    open spec fn deep_view(&self) -> ErrorView {
        self@
    }
}

impl ErrorView {
    /// The error in words: the store's own text where the store failed, the
    /// schema's where the record did.
    pub open spec fn text(self) -> Seq<char> {
        match self {
            ErrorView::Address(text) => text,
            ErrorView::Store(text) => text,
            ErrorView::Schema(flaw) => flaw.text(),
        }
    }
}

impl VaultError {
    /// The error in words, for a caller that shows it to the user.
    pub fn message(&self) -> (message: String)
        ensures
            message@ == self@.text(),
    {
        match self {
            VaultError::Address(text) => text.clone(),
            VaultError::Store(text) => text.clone(),
            VaultError::Schema(flaw) => flaw.message(),
        }
    }
}

/// A text to put into the store, and where.
#[derive(Clone, Debug, PartialEq, Eq)]
pub struct Write {
    pub address: Address,
    pub payload: String,
}

/// A [`Write`] with its texts as character sequences.
pub struct WriteView {
    pub place: Place,
    pub payload: Seq<char>,
}

impl View for Write {
    type V = WriteView;

    open spec fn view(&self) -> WriteView {
        WriteView { place: self.address@, payload: self.payload@ }
    }
}

impl DeepView for Write {
    type V = WriteView;

    open spec fn deep_view(&self) -> WriteView {
        self@
    }
}

/// What the store says when it holds nothing at an address.
pub open spec fn no_entry_text() -> Seq<char> {
    "No matching entry found in secure storage"@
}

/// The error that a fault of the store becomes where it is one.
pub open spec fn fault_error(fault: FaultView) -> ErrorView {
    match fault {
        FaultView::NoEntry => ErrorView::Store(no_entry_text()),
        FaultView::Unaddressable(text) => ErrorView::Address(text),
        FaultView::Other(text) => ErrorView::Store(text),
    }
}

/// The write that saves a record: its text, at the place of its slot.
pub open spec fn save_plan(record: RecordView) -> Result<WriteView, ErrorView> {
    match written(record) {
        Ok(text) => Ok(WriteView { place: record.slot().place(), payload: text }),
        Err(flaw) => Err(ErrorView::Schema(flaw)),
    }
}

/// What the store's answer to the write means: every fault is an error.
pub open spec fn save_result(written: Result<(), FaultView>) -> Result<(), ErrorView> {
    match written {
        Ok(_) => Ok(()),
        Err(fault) => Err(fault_error(fault)),
    }
}

/// What the store's answer to the read of a slot means: nothing there is
/// no record and no error; a text there must be the slot's record; any other
/// fault is an error.
pub open spec fn load_result(slot: Slot, read: Result<Seq<char>, FaultView>) -> Result<
    Option<RecordView>,
    ErrorView,
> {
    match read {
        Ok(text) => match parsed(slot, text) {
            Ok(record) => Ok(Some(record)),
            Err(flaw) => Err(ErrorView::Schema(flaw)),
        },
        Err(FaultView::NoEntry) => Ok(None),
        Err(fault) => Err(fault_error(fault)),
    }
}

/// What the store's answer to the delete means: nothing there is as good as
/// deleted; any other fault is an error.
pub open spec fn clear_result(deleted: Result<(), FaultView>) -> Result<(), ErrorView> {
    match deleted {
        Ok(_) => Ok(()),
        Err(FaultView::NoEntry) => Ok(()),
        Err(fault) => Err(fault_error(fault)),
    }
}

/// A record that is loaded from a slot is of the slot's kind.
pub proof fn lemma_load_kind(slot: Slot, read: Result<Seq<char>, FaultView>)
    ensures
        load_result(slot, read) matches Ok(Some(record)) ==> record.slot() == slot,
{
}

/// Turns a fault of the store into the error it stands for.
pub fn fault_to_error(fault: StoreFault) -> (error: VaultError)
    ensures
        error@ == fault_error(fault@),
{
    match fault {
        StoreFault::NoEntry => VaultError::Store(
            "No matching entry found in secure storage".to_owned(),
        ),
        StoreFault::Unaddressable(text) => VaultError::Address(text),
        StoreFault::Other(text) => VaultError::Store(text),
    }
}

/// Begins a save: writes the record as text and says where the text goes.
/// The record's kind fixes the slot. Whatever the slot held before is to be
/// overwritten.
pub fn save_request(record: &SecretRecord) -> (r: Result<Write, VaultError>)
    ensures
        seen(r) == save_plan(record@),
{
    match record.serialize() {
        Ok(text) => Ok(Write { address: record.slot().address(), payload: text }),
        Err(flaw) => Err(VaultError::Schema(flaw)),
    }
}

/// Ends a save: takes the store's answer to the write.
pub fn save_answer(written: Result<(), StoreFault>) -> (r: Result<(), VaultError>)
    ensures
        seen(r) == save_result(seen(written)),
{
    match written {
        Ok(_) => Ok(()),
        Err(fault) => Err(fault_to_error(fault)),
    }
}

/// Ends a load: takes the store's answer to the read at the slot's address.
pub fn load_answer(slot: Slot, read: Result<String, StoreFault>) -> (r: Result<
    Option<SecretRecord>,
    VaultError,
>)
    ensures
        seen(r) == load_result(slot, seen(read)),
{
    match read {
        Ok(text) => match SecretRecord::deserialize(slot, text.as_str()) {
            Ok(record) => Ok(Some(record)),
            Err(flaw) => Err(VaultError::Schema(flaw)),
        },
        Err(StoreFault::NoEntry) => Ok(None),
        Err(fault) => Err(fault_to_error(fault)),
    }
}

/// Ends a clear: takes the store's answer to the delete at the slot's
/// address.
pub fn clear_answer(deleted: Result<(), StoreFault>) -> (r: Result<(), VaultError>)
    ensures
        seen(r) == clear_result(seen(deleted)),
{
    match deleted {
        Ok(_) => Ok(()),
        Err(StoreFault::NoEntry) => Ok(()),
        Err(fault) => Err(fault_to_error(fault)),
    }
}

} // verus!
