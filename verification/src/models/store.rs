use vstd::prelude::*;
use secret_service::{Collection, Error, Item, SecretService};

use crate::models::secret::pairs_view;

verus! {

// The requests the application makes to the secret service. Each wrapper
// makes one request and gives, besides the answer, a ghost record of what it
// handed over and what came back. The records have private fields, so
// outside this module a record is only had from the request it describes.

/// Why an operation on the secret store failed.
#[derive(Debug)]
pub enum SecretError {
    /// The store returned no result (no default collection, or no entry).
    NoResult,
    /// A stored secret is not valid UTF-8 text.
    InvalidUtf8,
    /// Any other failure of the secret service.
    Service(Error),
}

#[verifier::external_type_specification]
#[verifier::external_body]
pub struct ExSecretService<'a>(SecretService<'a>);

#[verifier::external_type_specification]
#[verifier::external_body]
pub struct ExCollection<'a>(Collection<'a>);

#[verifier::external_type_specification]
#[verifier::external_body]
pub struct ExItem<'a>(Item<'a>);

#[verifier::external_type_specification]
#[verifier::external_body]
pub struct ExError(Error);

/// Whether a request succeeded, or its error.
pub open spec fn answer<T>(r: Result<T, SecretError>) -> Result<(), SecretError> {
    match r {
        Ok(_) => Ok(()),
        Err(e) => Err(e),
    }
}

/// The number of entries a search found, or its error.
pub open spec fn count_answer<'a>(r: Result<Vec<Item<'a>>, SecretError>) -> Result<nat, SecretError> {
    match r {
        Ok(items) => Ok(items@.len()),
        Err(e) => Err(e),
    }
}

/// A lookup of the default collection.
pub struct LookupRecord {
    answer: Result<(), SecretError>,
}

impl LookupRecord {
    pub closed spec fn answer(self) -> Result<(), SecretError> {
        self.answer
    }
}

/// A creation of a collection: its label and alias, and the answer.
pub struct CreateCollectionRecord {
    label: Seq<char>,
    alias: Seq<char>,
    answer: Result<(), SecretError>,
}

impl CreateCollectionRecord {
    pub closed spec fn label(self) -> Seq<char> {
        self.label
    }

    pub closed spec fn alias(self) -> Seq<char> {
        self.alias
    }

    pub closed spec fn answer(self) -> Result<(), SecretError> {
        self.answer
    }
}

/// An unlock of a collection.
pub struct UnlockRecord {
    answer: Result<(), SecretError>,
}

impl UnlockRecord {
    pub closed spec fn answer(self) -> Result<(), SecretError> {
        self.answer
    }
}

/// A search: the attributes searched for, and the number of entries found or
/// the error.
pub struct SearchRecord {
    attributes: Seq<(Seq<char>, Seq<char>)>,
    answer: Result<nat, SecretError>,
}

impl SearchRecord {
    pub closed spec fn attributes(self) -> Seq<(Seq<char>, Seq<char>)> {
        self.attributes
    }

    pub closed spec fn answer(self) -> Result<nat, SecretError> {
        self.answer
    }
}

/// A deletion: the position of the deleted entry among those found, and the
/// answer.
pub struct DeleteRecord {
    index: nat,
    answer: Result<(), SecretError>,
}

impl DeleteRecord {
    pub closed spec fn index(self) -> nat {
        self.index
    }

    pub closed spec fn answer(self) -> Result<(), SecretError> {
        self.answer
    }
}

/// A creation of an entry: what was handed over, and the answer.
pub struct CreateItemRecord {
    label: Seq<char>,
    attributes: Seq<(Seq<char>, Seq<char>)>,
    secret: Seq<u8>,
    replace: bool,
    content_type: Seq<char>,
    answer: Result<(), SecretError>,
}

impl CreateItemRecord {
    pub closed spec fn label(self) -> Seq<char> {
        self.label
    }

    pub closed spec fn attributes(self) -> Seq<(Seq<char>, Seq<char>)> {
        self.attributes
    }

    pub closed spec fn secret(self) -> Seq<u8> {
        self.secret
    }

    pub closed spec fn replace(self) -> bool {
        self.replace
    }

    pub closed spec fn content_type(self) -> Seq<char> {
        self.content_type
    }

    pub closed spec fn answer(self) -> Result<(), SecretError> {
        self.answer
    }
}

/// Calls `SecretService::get_default_collection`. What it returns depends on
/// the running secret service, so nothing is stated of it; its `NoResult`
/// error is told apart from the others. The record holds the answer.
#[verifier::external_body]
pub(crate) fn default_collection<'a>(ss: &'a SecretService<'a>) -> (res: (
    Result<Collection<'a>, SecretError>,
    Ghost<LookupRecord>,
))
    ensures
        res.1@.answer() == answer(res.0),
{
    let res = match ss.get_default_collection() {
        Ok(collection) => Ok(collection),
        Err(Error::NoResult) => Err(SecretError::NoResult),
        Err(err) => Err(SecretError::Service(err)),
    };
    (res, Ghost(LookupRecord { answer: answer(res) }))
}

/// Calls `SecretService::create_collection`. What it returns depends on the
/// running secret service, so nothing is stated of it. The record holds the
/// label and alias handed over, and the answer.
#[verifier::external_body]
pub(crate) fn create_collection<'a>(ss: &'a SecretService<'a>, label: &str, alias: &str) -> (res: (
    Result<Collection<'a>, SecretError>,
    Ghost<CreateCollectionRecord>,
))
    ensures
        res.1@.label() == label@,
        res.1@.alias() == alias@,
        res.1@.answer() == answer(res.0),
{
    let res = match ss.create_collection(label, alias) {
        Ok(collection) => Ok(collection),
        Err(Error::NoResult) => Err(SecretError::NoResult),
        Err(err) => Err(SecretError::Service(err)),
    };
    (res, Ghost(CreateCollectionRecord { label: label@, alias: alias@, answer: answer(res) }))
}

/// Calls `Collection::unlock`. Whether it succeeds depends on the running
/// secret service (and on the user answering its prompt); nothing is stated
/// of it. The record holds the answer.
#[verifier::external_body]
pub(crate) fn unlock_collection(collection: &Collection) -> (res: (Result<(), SecretError>, Ghost<UnlockRecord>))
    ensures
        res.1@.answer() == res.0,
{
    let res = match collection.unlock() {
        Ok(()) => Ok(()),
        Err(Error::NoResult) => Err(SecretError::NoResult),
        Err(err) => Err(SecretError::Service(err)),
    };
    (res, Ghost(UnlockRecord { answer: res }))
}

/// Calls `Collection::search_items` with the given (name, value) pairs as its
/// attribute map. The items found depend on the store; nothing is stated of
/// them. The record holds the attributes handed over and the answer.
#[verifier::external_body]
pub(crate) fn search_items<'a>(collection: &'a Collection<'a>, attrs: &Vec<(&str, &str)>) -> (res: (
    Result<Vec<Item<'a>>, SecretError>,
    Ghost<SearchRecord>,
))
    ensures
        res.1@.attributes() == pairs_view(attrs@),
        res.1@.answer() == count_answer(res.0),
{
    let res = match collection.search_items(attrs.iter().copied().collect()) {
        Ok(items) => Ok(items),
        Err(Error::NoResult) => Err(SecretError::NoResult),
        Err(err) => Err(SecretError::Service(err)),
    };
    (res, Ghost(SearchRecord { attributes: pairs_view(attrs@), answer: count_answer(res) }))
}

/// Calls `Item::delete` on entry `index` of `items`. Whether it succeeds
/// depends on the store; nothing is stated of it. The record holds the
/// position and the answer.
#[verifier::external_body]
pub(crate) fn delete_item(items: &Vec<Item>, index: usize) -> (res: (Result<(), SecretError>, Ghost<DeleteRecord>))
    requires
        index < items@.len(),
    ensures
        res.1@.index() == index,
        res.1@.answer() == res.0,
{
    let res = match items[index].delete() {
        Ok(()) => Ok(()),
        Err(Error::NoResult) => Err(SecretError::NoResult),
        Err(err) => Err(SecretError::Service(err)),
    };
    (res, Ghost(DeleteRecord { index: index as nat, answer: res }))
}

/// Calls `Collection::create_item` with the given (name, value) pairs as its
/// attribute map. Whether it succeeds depends on the store; nothing is stated
/// of it. The record holds everything handed over, and the answer.
#[verifier::external_body]
pub(crate) fn create_item(
    collection: &Collection,
    label: &str,
    attrs: &Vec<(&str, &str)>,
    secret: &[u8],
    replace: bool,
    content_type: &str,
) -> (res: (Result<(), SecretError>, Ghost<CreateItemRecord>))
    ensures
        res.1@.label() == label@,
        res.1@.attributes() == pairs_view(attrs@),
        res.1@.secret() == secret@,
        res.1@.replace() == replace,
        res.1@.content_type() == content_type@,
        res.1@.answer() == res.0,
{
    let res = match collection.create_item(label, attrs.iter().copied().collect(), secret, replace, content_type) {
        Ok(_) => Ok(()),
        Err(Error::NoResult) => Err(SecretError::NoResult),
        Err(err) => Err(SecretError::Service(err)),
    };
    let record = Ghost(CreateItemRecord {
        label: label@,
        attributes: pairs_view(attrs@),
        secret: secret@,
        replace,
        content_type: content_type@,
        answer: res,
    });
    (res, record)
}

} // verus!
