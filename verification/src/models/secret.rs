use vstd::prelude::*;
use vstd::utf8::*;
use secret_service::{Collection, Item, SecretService};

use crate::config::APP_ID;
pub use crate::models::store::SecretError;
use crate::models::store::{
    answer, create_collection, create_item, default_collection, delete_item, search_items, unlock_collection,
    CreateCollectionRecord, CreateItemRecord, DeleteRecord, LookupRecord, SearchRecord, UnlockRecord,
};

verus! {

/// The kinds of secrets the application keeps in the secret store.
#[derive(Debug, Clone, Copy, PartialEq, Eq, Structural)]
pub enum ServiceProvider {
    MicrosoftO365,
    SchulmanagerJwt,
}

impl ServiceProvider {
    /// The short identifier stored in the `service` attribute of an entry.
    pub open spec fn spec_id(self) -> Seq<char> {
        match self {
            ServiceProvider::MicrosoftO365 => "o365"@,
            ServiceProvider::SchulmanagerJwt => "sm"@,
        }
    }

    /// The human readable name used in the label of an entry.
    pub open spec fn spec_name(self) -> Seq<char> {
        match self {
            ServiceProvider::MicrosoftO365 => "Microsoft Office 365 Password"@,
            ServiceProvider::SchulmanagerJwt => "Schulmanager JSON Web Token"@,
        }
    }

    pub fn get_id(&self) -> (id: &'static str)
        ensures
            id@ == self.spec_id(),
    {
        match self {
            ServiceProvider::MicrosoftO365 => "o365",
            ServiceProvider::SchulmanagerJwt => "sm",
        }
    }

    pub fn get_name(&self) -> (name: &'static str)
        ensures
            name@ == self.spec_name(),
    {
        match self {
            ServiceProvider::MicrosoftO365 => "Microsoft Office 365 Password",
            ServiceProvider::SchulmanagerJwt => "Schulmanager JSON Web Token",
        }
    }
}

/// The attributes that identify the entry of `service` for `account`, as
/// (name, value) pairs: the application id, the service id and the account.
pub open spec fn spec_attrs(service: ServiceProvider, account: Seq<char>) -> Seq<(Seq<char>, Seq<char>)> {
    seq![("app_id"@, APP_ID@), ("service"@, service.spec_id()), ("account"@, account)]
}

/// The view of a list of string pairs.
pub open spec fn pairs_view(pairs: Seq<(&str, &str)>) -> Seq<(Seq<char>, Seq<char>)> {
    pairs.map_values(|p: (&str, &str)| (p.0@, p.1@))
}

/// The lookup attributes of the entry of `service` for `account`.
pub fn ss_attrs<'a>(service: ServiceProvider, account: &'a str) -> (attrs: Vec<(&'static str, &'a str)>)
    ensures
        pairs_view(attrs@) == spec_attrs(service, account@),
{
    let mut attrs: Vec<(&'static str, &'a str)> = Vec::new();
    attrs.push(("app_id", APP_ID));
    attrs.push(("service", service.get_id()));
    attrs.push(("account", account));
    assert(pairs_view(attrs@) =~= spec_attrs(service, account@));
    attrs
}

/// The label of the entry of `service`: `Magnesium: ` and the service's name.
pub open spec fn spec_label(service: ServiceProvider) -> Seq<char> {
    "Magnesium: "@ + service.spec_name()
}

pub fn secret_label(service: ServiceProvider) -> (label: String)
    ensures
        label@ == spec_label(service),
{
    let mut label = "Magnesium: ".to_owned();
    label.append(service.get_name());
    label
}

/// An entry to be stored in the secret store.
pub struct NewSecretItem<'a> {
    pub label: String,
    pub attributes: Vec<(&'static str, &'a str)>,
    pub secret: &'a [u8],
    /// Whether an entry with the same attributes is replaced.
    pub replace: bool,
    pub content_type: &'static str,
}

/// The entry that stores `secret` for `service` and `account`: labelled after
/// the service, identified by `ss_attrs`, holding the UTF-8 bytes of the
/// text as `text/plain`, and replacing an earlier entry.
pub fn secret_item<'a>(service: ServiceProvider, account: &'a str, secret: &'a str) -> (item: NewSecretItem<'a>)
    ensures
        item.label@ == spec_label(service),
        pairs_view(item.attributes@) == spec_attrs(service, account@),
        item.secret@ == encode_utf8(secret@),
        item.replace,
        item.content_type@ == "text/plain"@,
{
    NewSecretItem {
        label: secret_label(service),
        attributes: ss_attrs(service, account),
        secret: secret.as_bytes(),
        replace: true,
        content_type: "text/plain",
    }
}

/// An entry is found by three attributes: the application id, the service's
/// id (`o365` or `sm`) and the account; it is labelled `Magnesium: ` and the
/// service's name.
pub proof fn lemma_entry_attributes(service: ServiceProvider, account: Seq<char>)
    ensures
        spec_attrs(service, account).len() == 3,
        spec_attrs(service, account)[0] == ("app_id"@, APP_ID@),
        spec_attrs(service, account)[1] == ("service"@, service.spec_id()),
        spec_attrs(service, account)[2] == ("account"@, account),
        service == ServiceProvider::MicrosoftO365 ==> service.spec_id() == "o365"@,
        service == ServiceProvider::SchulmanagerJwt ==> service.spec_id() == "sm"@,
        spec_label(service) == "Magnesium: "@ + service.spec_name(),
{
}

/// Entries of different services or accounts have different attributes, so
/// storing one never replaces another.
pub proof fn lemma_attrs_identify_entry(s1: ServiceProvider, a1: Seq<char>, s2: ServiceProvider, a2: Seq<char>)
    requires
        spec_attrs(s1, a1) == spec_attrs(s2, a2),
    ensures
        s1 == s2,
        a1 == a2,
{
    reveal_strlit("o365");
    reveal_strlit("sm");
    assert(spec_attrs(s1, a1)[1].1 == spec_attrs(s2, a2)[1].1);
    assert(spec_attrs(s1, a1)[2].1 == spec_attrs(s2, a2)[2].1);
    if s1 != s2 {
        assert(s1.spec_id() != s2.spec_id()) by {
            assert(s1.spec_id().len() != s2.spec_id().len());
        }
    }
}

/// The bytes that `secret_item` stores for a text are valid UTF-8, and
/// `decode_secret` reads them back as the same text.
pub proof fn lemma_stored_secret_reads_back(text: Seq<char>)
    ensures
        valid_utf8(encode_utf8(text)),
        decode_utf8(encode_utf8(text)) == text,
{
    encode_utf8_valid_utf8(text);
    encode_utf8_decode_utf8(text);
}

/// Calls `String::from_utf8`, which std documents to give the string that the
/// bytes encode when they are valid UTF-8, and an error otherwise.
#[verifier::external_body]
fn string_from_utf8(bytes: Vec<u8>) -> (res: Option<String>)
    ensures
        res is Some <==> valid_utf8(bytes@),
        res matches Some(s) ==> s@ == decode_utf8(bytes@),
{
    String::from_utf8(bytes).ok()
}

/// What a lookup gives for the secret bytes of the entry found (`None`: no
/// entry, or its secret could not be read): its text, nothing, or
/// `InvalidUtf8` for bytes that are not UTF-8.
pub open spec fn spec_decode_secret(fetched: Option<Seq<u8>>) -> Result<Option<Seq<char>>, SecretError> {
    match fetched {
        None => Ok(None),
        Some(bytes) => if valid_utf8(bytes) {
            Ok(Some(decode_utf8(bytes)))
        } else {
            Err(SecretError::InvalidUtf8)
        },
    }
}

/// The view of a lookup's result, its text as characters.
pub open spec fn secret_result_view(res: Result<Option<String>, SecretError>) -> Result<Option<Seq<char>>, SecretError> {
    match res {
        Ok(Some(s)) => Ok(Some(s@)),
        Ok(None) => Ok(None),
        Err(e) => Err(e),
    }
}

/// Turns the secret bytes of the first entry found (`None` when there is no
/// entry or its secret could not be read) into the stored text.
pub fn decode_secret(fetched: Option<Vec<u8>>) -> (res: Result<Option<String>, SecretError>)
    ensures
        secret_result_view(res) == spec_decode_secret(
            match fetched {
                Some(b) => Some(b@),
                None => None,
            },
        ),
{
    match fetched {
        None => Ok(None),
        Some(bytes) => match string_from_utf8(bytes) {
            Some(s) => Ok(Some(s)),
            None => Err(SecretError::InvalidUtf8),
        },
    }
}

/// The secret bytes that a lookup decodes, given the number of entries found
/// and what reading the first of them gave (`None` when it was not read):
/// nothing when no entry was found or the first could not be read, else its
/// bytes.
pub open spec fn spec_fetched_secret(found: nat, first: Option<Result<Seq<u8>, SecretError>>) -> Option<Seq<u8>> {
    if found == 0 {
        None
    } else {
        match first {
            Some(Ok(bytes)) => Some(bytes),
            _ => None,
        }
    }
}

pub fn fetched_secret(found: usize, first: Option<Result<Vec<u8>, SecretError>>) -> (fetched: Option<Vec<u8>>)
    ensures
        (match fetched {
            Some(b) => Some(b@),
            None => None,
        }) == spec_fetched_secret(found as nat, bytes_answer(first)),
{
    if found == 0 {
        None
    } else {
        match first {
            Some(Ok(bytes)) => Some(bytes),
            _ => None,
        }
    }
}

/// A lookup reads the first entry whenever the search found one: it gives the
/// bytes read from it, and nothing when no entry was found or reading failed.
pub proof fn lemma_fetched_secret_reads_first(found: nat, first: Option<Result<Seq<u8>, SecretError>>)
    ensures
        found > 0 ==> (first matches Some(Ok(b)) ==> spec_fetched_secret(found, first) == Some(b)),
        found == 0 ==> spec_fetched_secret(found, first) is None,
        !(first matches Some(Ok(_))) ==> spec_fetched_secret(found, first) is None,
{
}

/// The bytes read from an entry decode to their text when they are UTF-8
/// and give `InvalidUtf8` otherwise; no bytes give nothing. So a lookup that
/// finds an entry holding the encoding of a text gives that text.
pub proof fn lemma_lookup_gives_stored_text(found: nat, text: Seq<char>)
    ensures
        spec_decode_secret(None) == Ok::<Option<Seq<char>>, SecretError>(None),
        forall|b: Seq<u8>| valid_utf8(b) ==> #[trigger] spec_decode_secret(Some(b)) == Ok::<
            Option<Seq<char>>,
            SecretError,
        >(Some(decode_utf8(b))),
        forall|b: Seq<u8>| !valid_utf8(b) ==> #[trigger] spec_decode_secret(Some(b)) matches Err(
            SecretError::InvalidUtf8,
        ),
        found > 0 ==> spec_decode_secret(spec_fetched_secret(found, Some(Ok(encode_utf8(text))))) == Ok::<
            Option<Seq<char>>,
            SecretError,
        >(Some(text)),
{
    lemma_stored_secret_reads_back(text);
}

/// Which of the `found` entries a removal deletes: the first, or `NoResult`
/// when there is none.
pub fn removal_target(found: usize) -> (target: Result<usize, SecretError>)
    ensures
        found == 0 ==> target matches Err(SecretError::NoResult),
        found > 0 ==> (target matches Ok(i) && i == 0),
{
    if found == 0 {
        Err(SecretError::NoResult)
    } else {
        Ok(0)
    }
}

/// Whether the answer to the lookup of the default collection asks for the
/// collection to be created: only a `NoResult` answer does.
pub fn creates_default_collection<T>(lookup: &Result<T, SecretError>) -> (create: bool)
    ensures
        create == (*lookup matches Err(SecretError::NoResult)),
{
    match lookup {
        Err(SecretError::NoResult) => true,
        _ => false,
    }
}

/// The bytes of a read secret, or its error; `None` where nothing was read.
pub open spec fn bytes_answer(r: Option<Result<Vec<u8>, SecretError>>) -> Option<Result<Seq<u8>, SecretError>> {
    match r {
        Some(Ok(b)) => Some(Ok(b@)),
        Some(Err(e)) => Some(Err(e)),
        None => None,
    }
}

/// The account that getting the default collection gives of its requests:
/// the record of the lookup, and of the creation asked for after it.
pub struct CollectionTrace {
    pub lookup: LookupRecord,
    pub create: Option<CreateCollectionRecord>,
}

/// The collection is created, as `default` with alias `default`, exactly when
/// the lookup answered `NoResult`.
pub open spec fn collection_trace_valid(t: CollectionTrace) -> bool {
    &&& (t.create is Some <==> t.lookup.answer() matches Err(SecretError::NoResult))
    &&& t.create matches Some(c) ==> c.label() == "default"@ && c.alias() == "default"@
}

/// The default collection is had (`Ok`), or the error of the last request.
pub open spec fn collection_outcome(t: CollectionTrace) -> Result<(), SecretError> {
    match t.create {
        Some(c) => c.answer(),
        None => t.lookup.answer(),
    }
}

/// The account that a secret operation gives of what it asked the store and
/// what came back: the records of getting the default collection and then
/// (once it is had) of unlocking it, searching it, deleting an entry or
/// creating one, each made by the request itself from what it was handed and
/// what it received; and what reading the first entry found gave.
pub struct SecretTrace {
    pub collection: CollectionTrace,
    pub unlock: Option<UnlockRecord>,
    pub search: Option<SearchRecord>,
    pub read_first: Option<Result<Seq<u8>, SecretError>>,
    pub delete: Option<DeleteRecord>,
    pub create: Option<CreateItemRecord>,
}

/// A trace that holds only the collection requests.
pub open spec fn collection_only(c: CollectionTrace) -> SecretTrace {
    SecretTrace { collection: c, unlock: None, search: None, read_first: None, delete: None, create: None }
}

/// A search was made, for `attrs`, exactly when the default collection was had.
pub open spec fn searched_for(t: SecretTrace, attrs: Seq<(Seq<char>, Seq<char>)>) -> bool {
    &&& collection_trace_valid(t.collection)
    &&& (t.search is Some <==> collection_outcome(t.collection) is Ok)
    &&& t.search matches Some(s) ==> s.attributes() == attrs
}

/// The number of entries found by the search of `t`; 0 where there is none.
pub open spec fn found_count(t: SecretTrace) -> nat {
    match t.search {
        Some(s) => match s.answer() {
            Ok(n) => n,
            Err(_) => 0,
        },
        None => 0,
    }
}

/// The search of `t` was made and found entries.
pub open spec fn found_some(t: SecretTrace) -> bool {
    t.search matches Some(s) && s.answer() matches Ok(n) && n > 0
}

/// An error of the collection requests, else an error of the search, else `ok`.
pub open spec fn after_search<T>(t: SecretTrace, ok: Result<T, SecretError>) -> Result<T, SecretError> {
    match collection_outcome(t.collection) {
        Err(e) => Err(e),
        Ok(()) => match t.search {
            Some(s) => match s.answer() {
                Err(e) => Err(e),
                Ok(_) => ok,
            },
            None => ok,
        },
    }
}

/// The operations of the application on the secret store. Each also gives
/// the records of the requests it made (ghost values that only the requests
/// themselves make, from what they were handed and what came back), and its
/// result is stated as a function of them.
pub struct Secrets;

impl Secrets {
    /// The default collection of the store, created (as `default`, alias
    /// `default`) when the store answers that it has none.
    pub fn get_default_collection<'a>(ss: &'a SecretService<'a>) -> (res: (
        Result<Collection<'a>, SecretError>,
        Ghost<CollectionTrace>,
    ))
        ensures
            collection_trace_valid(res.1@),
            answer(res.0) == collection_outcome(res.1@),
    {
        let (lookup, Ghost(lookup_record)) = default_collection(ss);
        if creates_default_collection(&lookup) {
            let name = "default";
            let (created, Ghost(create_record)) = create_collection(ss, name, name);
            proof {
                reveal_strlit("default");
            }
            (created, Ghost(CollectionTrace { lookup: lookup_record, create: Some(create_record) }))
        } else {
            (lookup, Ghost(CollectionTrace { lookup: lookup_record, create: None }))
        }
    }

    /// Unlocks the default collection: `Ok` when the collection is had and
    /// unlocks, else the error of the failing request.
    pub fn ensure_unlocked(ss: &SecretService) -> (res: (Result<(), SecretError>, Ghost<SecretTrace>))
        ensures
            collection_trace_valid(res.1@.collection),
            res.1@.unlock is Some <==> collection_outcome(res.1@.collection) is Ok,
            res.1@.search is None && res.1@.read_first is None && res.1@.delete is None
                && res.1@.create is None,
            res.0 == (match collection_outcome(res.1@.collection) {
                Err(e) => Err(e),
                Ok(()) => res.1@.unlock.unwrap().answer(),
            }),
    {
        let (collection, Ghost(ct)) = Self::get_default_collection(ss);
        match collection {
            Err(e) => (Err(e), Ghost(collection_only(ct))),
            Ok(collection) => {
                let (unlocked, Ghost(unlock_record)) = unlock_collection(&collection);
                (unlocked, Ghost(SecretTrace { unlock: Some(unlock_record), ..collection_only(ct) }))
            },
        }
    }

    /// The text stored for `service` and `account`: the default collection is
    /// searched for `ss_attrs(service, account)`, the secret of the first
    /// entry found is read with `read_secret` and decoded (`None` when nothing
    /// is found or it cannot be read, `InvalidUtf8` when it is not text); the
    /// error of a failing collection request or search is passed on.
    ///
    /// The caller reads the entry (with `Item::get_secret`): for an encrypted
    /// session that method panics on a reply that does not decrypt, which no
    /// condition on its arguments rules out, so that call is not made here.
    pub fn get_secret<F>(ss: &SecretService, service: ServiceProvider, account: &str, read_secret: F) -> (res: (
        Result<Option<String>, SecretError>,
        Ghost<SecretTrace>,
    )) where F: Fn(&Item) -> Result<Vec<u8>, SecretError>
        requires
            forall|item: &Item| #[trigger] read_secret.requires((item,)),
        ensures
            searched_for(res.1@, spec_attrs(service, account@)),
            res.1@.read_first is Some <==> found_some(res.1@),
            res.1@.unlock is None && res.1@.delete is None && res.1@.create is None,
            secret_result_view(res.0) == after_search(
                res.1@,
                spec_decode_secret(spec_fetched_secret(found_count(res.1@), res.1@.read_first)),
            ),
    {
        let (collection, Ghost(ct)) = Self::get_default_collection(ss);
        let collection = match collection {
            Err(e) => {
                return (Err(e), Ghost(collection_only(ct)));
            },
            Ok(c) => c,
        };
        let attrs = ss_attrs(service, account);
        let (found, Ghost(search_record)) = search_items(&collection, &attrs);
        let items = match found {
            Err(e) => {
                return (Err(e), Ghost(SecretTrace { search: Some(search_record), ..collection_only(ct) }));
            },
            Ok(items) => items,
        };
        let first = if items.len() == 0 {
            None
        } else {
            Some(read_secret(&items[0]))
        };
        let ghost trace = SecretTrace {
            search: Some(search_record),
            read_first: bytes_answer(first),
            ..collection_only(ct)
        };
        let fetched = fetched_secret(items.len(), first);
        (decode_secret(fetched), Ghost(trace))
    }

    /// Stores `secret` for `service` and `account`: once the default
    /// collection is had, the entry `secret_item(service, account, secret)`
    /// is created in it, replacing an earlier one; the result is the answer
    /// to that request, or the error of a failing collection request.
    pub fn set_secret(ss: &SecretService, service: ServiceProvider, account: &str, secret: &str) -> (res: (
        Result<(), SecretError>,
        Ghost<SecretTrace>,
    ))
        ensures
            collection_trace_valid(res.1@.collection),
            res.1@.create is Some <==> collection_outcome(res.1@.collection) is Ok,
            res.1@.create matches Some(c) ==> {
                &&& c.label() == spec_label(service)
                &&& c.attributes() == spec_attrs(service, account@)
                &&& c.secret() == encode_utf8(secret@)
                &&& c.replace()
                &&& c.content_type() == "text/plain"@
            },
            res.1@.unlock is None && res.1@.search is None && res.1@.read_first is None
                && res.1@.delete is None,
            res.0 == (match collection_outcome(res.1@.collection) {
                Err(e) => Err(e),
                Ok(()) => res.1@.create.unwrap().answer(),
            }),
    {
        let (collection, Ghost(ct)) = Self::get_default_collection(ss);
        let collection = match collection {
            Err(e) => {
                return (Err(e), Ghost(collection_only(ct)));
            },
            Ok(c) => c,
        };
        let item = secret_item(service, account, secret);
        let (created, Ghost(create_record)) = create_item(
            &collection,
            item.label.as_str(),
            &item.attributes,
            item.secret,
            item.replace,
            item.content_type,
        );
        (created, Ghost(SecretTrace { create: Some(create_record), ..collection_only(ct) }))
    }

    /// Deletes the entry of `service` and `account`: the default collection
    /// is searched for `ss_attrs(service, account)` and the first entry found
    /// is deleted (`NoResult` when none is found); the error of a failing
    /// collection request or search is passed on.
    pub fn remove_secret(ss: &SecretService, service: ServiceProvider, account: &str) -> (res: (
        Result<(), SecretError>,
        Ghost<SecretTrace>,
    ))
        ensures
            searched_for(res.1@, spec_attrs(service, account@)),
            res.1@.delete is Some <==> found_some(res.1@),
            res.1@.delete matches Some(d) ==> d.index() == 0,
            res.1@.unlock is None && res.1@.read_first is None && res.1@.create is None,
            res.0 == after_search(
                res.1@,
                match res.1@.delete {
                    Some(d) => d.answer(),
                    None => Err(SecretError::NoResult),
                },
            ),
    {
        let (collection, Ghost(ct)) = Self::get_default_collection(ss);
        let collection = match collection {
            Err(e) => {
                return (Err(e), Ghost(collection_only(ct)));
            },
            Ok(c) => c,
        };
        let attrs = ss_attrs(service, account);
        let (found, Ghost(search_record)) = search_items(&collection, &attrs);
        let items = match found {
            Err(e) => {
                return (Err(e), Ghost(SecretTrace { search: Some(search_record), ..collection_only(ct) }));
            },
            Ok(items) => items,
        };
        match removal_target(items.len()) {
            Err(e) => (Err(e), Ghost(SecretTrace { search: Some(search_record), ..collection_only(ct) })),
            Ok(i) => {
                let (deleted, Ghost(delete_record)) = delete_item(&items, i);
                let ghost trace = SecretTrace {
                    search: Some(search_record),
                    delete: Some(delete_record),
                    ..collection_only(ct)
                };
                (deleted, Ghost(trace))
            },
        }
    }
}

} // verus!
