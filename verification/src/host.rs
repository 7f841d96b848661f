//! What a resolution consults: the environment and the registry of one machine,
//! held as plain values.

use crate::location::Location;
use std::path::PathBuf;
use vstd::prelude::*;

verus! {

/// `std::path::PathBuf`. A path is carried from the host to the record that
/// names it and is never looked into.
#[verifier::external_type_specification]
#[verifier::external_body]
pub struct ExPathBuf(PathBuf);

/// `PathBuf::clone`, of which std says that it gives a copy of the value: the
/// copy is the same path.
pub assume_specification[ <PathBuf as Clone>::clone ](path: &PathBuf) -> (copy: PathBuf)
    ensures
        copy == *path,
;

/// The value of one environment variable that is read as text.
#[derive(Clone, Debug, PartialEq, Eq)]
pub enum EnvText {
    /// The variable is not set.
    Unset,
    /// The variable is set to this text.
    Text(String),
    /// The variable is set, to something that is not valid text.
    Malformed,
}

/// The mathematical value of an [`EnvText`].
pub ghost enum EnvTextView {
    Unset,
    Text(Seq<char>),
    Malformed,
}

impl View for EnvText {
    type V = EnvTextView;

    open spec fn view(&self) -> EnvTextView {
        match self {
            EnvText::Unset => EnvTextView::Unset,
            EnvText::Text(s) => EnvTextView::Text(s@),
            EnvText::Malformed => EnvTextView::Malformed,
        }
    }
}

/// The two environment variables that name an SDK installation.
#[derive(Clone, Debug, PartialEq, Eq)]
pub struct Environment {
    /// The value of `WindowsSdkDir`, if it is set.
    pub sdk_dir: Option<PathBuf>,
    /// The value of `WindowsSdkVersion`.
    pub sdk_version: EnvText,
}

/// The mathematical value of an [`Environment`].
pub ghost struct EnvironmentView {
    pub sdk_dir: Option<PathBuf>,
    pub sdk_version: EnvTextView,
}

impl View for Environment {
    type V = EnvironmentView;

    open spec fn view(&self) -> EnvironmentView {
        EnvironmentView { sdk_dir: self.sdk_dir, sdk_version: self.sdk_version@ }
    }
}

/// The fields of a registration as they were read from one registry key, each
/// of them present or not.
#[derive(Clone, Debug, PartialEq, Eq)]
pub struct StoredRecord {
    /// The value named `InstallationFolder`.
    pub installation_folder: Option<PathBuf>,
    /// The value named `ProductName`.
    pub product_name: Option<String>,
    /// The value named `ProductVersion`.
    pub product_version: Option<String>,
}

/// The mathematical value of a [`StoredRecord`].
pub ghost struct StoredRecordView {
    pub installation_folder: Option<PathBuf>,
    pub product_name: Option<Seq<char>>,
    pub product_version: Option<Seq<char>>,
}

/// The text that an optional string holds.
pub open spec fn text_of(s: Option<String>) -> Option<Seq<char>> {
    match s {
        Some(s) => Some(s@),
        None => None,
    }
}

impl View for StoredRecord {
    type V = StoredRecordView;

    open spec fn view(&self) -> StoredRecordView {
        StoredRecordView {
            installation_folder: self.installation_folder,
            product_name: text_of(self.product_name),
            product_version: text_of(self.product_version),
        }
    }
}

/// What came of opening one registry location and reading it.
///
/// `E` is the error of whoever did the reading. It is handed back untouched.
#[derive(Clone, Debug, PartialEq, Eq)]
pub enum Lookup<E> {
    /// There is no such key.
    Absent,
    /// The key could not be opened, for another reason than its absence.
    Inaccessible(E),
    /// The key is there, and its values cannot be read as fields of a record.
    Malformed,
    /// The key is there, with these fields.
    Stored(StoredRecord),
}

/// The mathematical value of a [`Lookup`].
pub ghost enum LookupView<E> {
    Absent,
    Inaccessible(E),
    Malformed,
    Stored(StoredRecordView),
}

impl<E> View for Lookup<E> {
    type V = LookupView<E>;

    open spec fn view(&self) -> LookupView<E> {
        match self {
            Lookup::Absent => LookupView::Absent,
            Lookup::Inaccessible(e) => LookupView::Inaccessible(*e),
            Lookup::Malformed => LookupView::Malformed,
            Lookup::Stored(r) => LookupView::Stored(r@),
        }
    }
}

/// The registry of one machine, as far as SDKs register in it: what a lookup
/// of each [`Location`] gives.
#[derive(Clone, Debug, PartialEq, Eq)]
pub struct Store<E> {
    /// The lookup of the location of the Windows 10.0 SDK.
    pub v10_0: Lookup<E>,
    /// The lookup of the location of the suffixed flavour of the Windows 8.1 SDK.
    pub v8_1a: Lookup<E>,
    /// The lookup of the location of the plain flavour of the Windows 8.1 SDK.
    pub v8_1: Lookup<E>,
    /// The lookup of the location of the suffixed flavour of the Windows 8.0 SDK.
    pub v8_0a: Lookup<E>,
    /// The lookup of the location of the plain flavour of the Windows 8.0 SDK.
    pub v8_0: Lookup<E>,
    /// The lookup of the location of the suffixed flavour of the Windows 7.1 SDK.
    pub v7_1a: Lookup<E>,
    /// The lookup of the location of the plain flavour of the Windows 7.1 SDK.
    pub v7_1: Lookup<E>,
    /// The lookup of the location of the suffixed flavour of the Windows 7.0 SDK.
    pub v7_0a: Lookup<E>,
    /// The lookup of the location of the plain flavour of the Windows 7.0 SDK.
    pub v7_0: Lookup<E>,
    /// The lookup of the location of the suffixed flavour of the Windows 6.1 SDK.
    pub v6_1a: Lookup<E>,
    /// The lookup of the location of the plain flavour of the Windows 6.1 SDK.
    pub v6_1: Lookup<E>,
    /// The lookup of the location of the suffixed flavour of the Windows 6.0 SDK.
    pub v6_0a: Lookup<E>,
    /// The lookup of the location of the plain flavour of the Windows 6.0 SDK.
    pub v6_0: Lookup<E>,
}

impl<E> Store<E> {
    /// What a lookup of `location` gives.
    pub open spec fn at(self, location: Location) -> LookupView<E> {
        match location {
            Location::V10_0 => self.v10_0@,
            Location::V8_1A => self.v8_1a@,
            Location::V8_1 => self.v8_1@,
            Location::V8_0A => self.v8_0a@,
            Location::V8_0 => self.v8_0@,
            Location::V7_1A => self.v7_1a@,
            Location::V7_1 => self.v7_1@,
            Location::V7_0A => self.v7_0a@,
            Location::V7_0 => self.v7_0@,
            Location::V6_1A => self.v6_1a@,
            Location::V6_1 => self.v6_1@,
            Location::V6_0A => self.v6_0a@,
            Location::V6_0 => self.v6_0@,
        }
    }

    /// A registry in which no SDK is registered.
    pub fn empty() -> (store: Self)
        ensures
            store@ == Map::<Location, LookupView<E>>::total(|l: Location| LookupView::Absent),
    {
        let store = Store {
            v10_0: Lookup::Absent,
            v8_1a: Lookup::Absent,
            v8_1: Lookup::Absent,
            v8_0a: Lookup::Absent,
            v8_0: Lookup::Absent,
            v7_1a: Lookup::Absent,
            v7_1: Lookup::Absent,
            v7_0a: Lookup::Absent,
            v7_0: Lookup::Absent,
            v6_1a: Lookup::Absent,
            v6_1: Lookup::Absent,
            v6_0a: Lookup::Absent,
            v6_0: Lookup::Absent,
        };
        assert(store@ =~= Map::<Location, LookupView<E>>::total(|l: Location| LookupView::Absent));
        store
    }

    /// The same registry, but that a lookup of `location` gives `lookup`.
    pub fn with(self, location: Location, lookup: Lookup<E>) -> (store: Self)
        ensures
            store@ == self@.insert(location, lookup@),
    {
        let mut store = self;
        match location {
            Location::V10_0 => {
                store.v10_0 = lookup;
            },
            Location::V8_1A => {
                store.v8_1a = lookup;
            },
            Location::V8_1 => {
                store.v8_1 = lookup;
            },
            Location::V8_0A => {
                store.v8_0a = lookup;
            },
            Location::V8_0 => {
                store.v8_0 = lookup;
            },
            Location::V7_1A => {
                store.v7_1a = lookup;
            },
            Location::V7_1 => {
                store.v7_1 = lookup;
            },
            Location::V7_0A => {
                store.v7_0a = lookup;
            },
            Location::V7_0 => {
                store.v7_0 = lookup;
            },
            Location::V6_1A => {
                store.v6_1a = lookup;
            },
            Location::V6_1 => {
                store.v6_1 = lookup;
            },
            Location::V6_0A => {
                store.v6_0a = lookup;
            },
            Location::V6_0 => {
                store.v6_0 = lookup;
            },
        }
        assert(store@ =~= self@.insert(location, lookup@));
        store
    }
}

impl<E> View for Store<E> {
    type V = Map<Location, LookupView<E>>;

    open spec fn view(&self) -> Map<Location, LookupView<E>> {
        Map::total(|l: Location| self.at(l))
    }
}

/// The machine on which SDKs are looked for.
#[derive(Clone, Debug, PartialEq, Eq)]
pub struct Host<E> {
    /// Its environment.
    pub env: Environment,
    /// Its registry.
    pub store: Store<E>,
}

/// The mathematical value of a [`Host`].
pub ghost struct HostView<E> {
    pub env: EnvironmentView,
    pub store: Map<Location, LookupView<E>>,
}

impl<E> View for Host<E> {
    type V = HostView<E>;

    open spec fn view(&self) -> HostView<E> {
        HostView { env: self.env@, store: self.store@ }
    }
}

} // verus!
