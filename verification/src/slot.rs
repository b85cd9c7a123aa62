//! The slot registry: the fixed place of every slot in the credential store.

use vstd::prelude::*;

verus! {

/// A logical configuration entry of the application.
#[derive(Clone, Copy, PartialEq, Eq, Debug, Structural)]
pub enum Slot {
    /// The credentials of the language-model backend.
    ApiConfig,
    /// The credentials of the speech-to-text backend.
    SttConfig,
}

/// Where a value lives in the credential store.
#[derive(Clone, Debug, PartialEq, Eq)]
pub struct Address {
    /// The service entry under which the store groups the application's secrets.
    pub namespace: String,
    /// The key of one secret under that entry.
    pub account: String,
}

/// An address as a pair of character sequences.
pub struct Place {
    pub namespace: Seq<char>,
    pub account: Seq<char>,
}

impl View for Address {
    type V = Place;

    open spec fn view(&self) -> Place {
        Place { namespace: self.namespace@, account: self.account@ }
    }
}

/// The one namespace that all slots of the application share.
pub open spec fn service_name() -> Seq<char> {
    "IntelliNoteSecureConfig"@
}

impl Slot {
    /// The account key of the slot, which is also its logical name.
    pub open spec fn account(self) -> Seq<char> {
        match self {
            Slot::ApiConfig => "api_config"@,
            Slot::SttConfig => "stt_config"@,
        }
    }

    /// The place of the slot in the store.
    pub open spec fn place(self) -> Place {
        Place { namespace: service_name(), account: self.account() }
    }

    /// Looks the slot up in the registry.
    pub fn address(&self) -> (address: Address)
        ensures
            address@ == self.place(),
    {
        let account = match self {
            Slot::ApiConfig => "api_config".to_owned(),
            Slot::SttConfig => "stt_config".to_owned(),
        };
        Address { namespace: "IntelliNoteSecureConfig".to_owned(), account }
    }
}

/// Two different slots never share a place in the store.
pub proof fn lemma_places_disjoint(a: Slot, b: Slot)
    ensures
        a != b ==> a.place() != b.place(),
{
    reveal_strlit("api_config");
    reveal_strlit("stt_config");
    if a != b {
        assert("api_config"@[0] != "stt_config"@[0]);
    }
}

} // verus!
