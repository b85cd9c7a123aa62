//! The command surface: one entry for each slot and operation, as the
//! application shell calls them.
//!
//! A command decides nothing of its own. It hands its slot and its argument
//! to the operation of [`crate::vault`] and flattens an error to the text
//! that the shell shows. A save comes in two halves, before and after the
//! write; a load and a clear take the store's answer and are done.

use vstd::prelude::*;
use crate::record::{
    seen, ApiConfigView, RecordView, SecretRecord, SecureApiConfig, SecureSttConfig, SttConfigView,
};
use crate::slot::Slot;
use crate::vault::{
    clear_answer, clear_result, load_answer, load_result, save_answer, save_plan, save_request,
    save_result, ErrorView, FaultView, StoreFault, VaultError, Write,
};

verus! {

/// A result of the vault as the shell sees it: the error as its text.
pub open spec fn flat<T>(result: Result<T, ErrorView>) -> Result<T, Seq<char>> {
    match result {
        Ok(value) => Ok(value),
        Err(error) => Err(error.text()),
    }
}

/// What the shell is told of a load of the language-model slot. A load of a
/// slot finds no record of another kind ([`crate::vault::lemma_load_kind`]).
pub open spec fn api_loaded(read: Result<Seq<char>, FaultView>) -> Result<
    Option<ApiConfigView>,
    Seq<char>,
> {
    match load_result(Slot::ApiConfig, read) {
        Ok(Some(RecordView::Api(config))) => Ok(Some(config)),
        Ok(_) => Ok(None),
        Err(error) => Err(error.text()),
    }
}

/// What the shell is told of a load of the speech-to-text slot. A load of a
/// slot finds no record of another kind ([`crate::vault::lemma_load_kind`]).
pub open spec fn stt_loaded(read: Result<Seq<char>, FaultView>) -> Result<
    Option<SttConfigView>,
    Seq<char>,
> {
    match load_result(Slot::SttConfig, read) {
        Ok(Some(RecordView::Stt(config))) => Ok(Some(config)),
        Ok(_) => Ok(None),
        Err(error) => Err(error.text()),
    }
}

/// Flattens the error of a finished operation.
fn flatten<T>(result: Result<T, VaultError>) -> (r: Result<T, String>)
    ensures
        r matches Ok(value) ==> result == Ok::<T, VaultError>(value),
        r matches Err(text) ==> result is Err && text@ == result->Err_0@.text(),
{
    match result {
        Ok(value) => Ok(value),
        Err(error) => Err(error.message()),
    }
}

/// Saves the credentials of the language-model backend, first half: the
/// write to make.
pub fn secure_save_api_config(config: SecureApiConfig) -> (r: Result<Write, String>)
    ensures
        seen(r) == flat(save_plan(RecordView::Api(config@))),
{
    flatten(save_request(&SecretRecord::Api(config)))
}

/// Saves the credentials of the speech-to-text backend, first half: the
/// write to make.
pub fn secure_save_stt_config(config: SecureSttConfig) -> (r: Result<Write, String>)
    ensures
        seen(r) == flat(save_plan(RecordView::Stt(config@))),
{
    flatten(save_request(&SecretRecord::Stt(config)))
}

/// Saves credentials, second half: what the store answered to the write.
pub fn secure_save_finish(written: Result<(), StoreFault>) -> (r: Result<(), String>)
    ensures
        seen(r) == flat(save_result(seen(written))),
{
    flatten(save_answer(written))
}

/// Loads the credentials of the language-model backend from what the store
/// answered to the read at the slot's address.
pub fn secure_load_api_config(read: Result<String, StoreFault>) -> (r: Result<
    Option<SecureApiConfig>,
    String,
>)
    ensures
        seen(r) == api_loaded(seen(read)),
{
    match flatten(load_answer(Slot::ApiConfig, read)) {
        Ok(Some(SecretRecord::Api(config))) => Ok(Some(config)),
        Ok(Some(SecretRecord::Stt(_))) => unreached(),
        Ok(None) => Ok(None),
        Err(text) => Err(text),
    }
}

/// Loads the credentials of the speech-to-text backend from what the store
/// answered to the read at the slot's address.
pub fn secure_load_stt_config(read: Result<String, StoreFault>) -> (r: Result<
    Option<SecureSttConfig>,
    String,
>)
    ensures
        seen(r) == stt_loaded(seen(read)),
{
    match flatten(load_answer(Slot::SttConfig, read)) {
        Ok(Some(SecretRecord::Stt(config))) => Ok(Some(config)),
        Ok(Some(SecretRecord::Api(_))) => unreached(),
        Ok(None) => Ok(None),
        Err(text) => Err(text),
    }
}

/// Clears the credentials of the language-model backend: what the store
/// answered to the delete at the slot's address.
pub fn secure_clear_api_config(deleted: Result<(), StoreFault>) -> (r: Result<(), String>)
    ensures
        seen(r) == flat(clear_result(seen(deleted))),
{
    flatten(clear_answer(deleted))
}

/// Clears the credentials of the speech-to-text backend: what the store
/// answered to the delete at the slot's address.
pub fn secure_clear_stt_config(deleted: Result<(), StoreFault>) -> (r: Result<(), String>)
    ensures
        seen(r) == flat(clear_result(seen(deleted))),
{
    flatten(clear_answer(deleted))
}

} // verus!
