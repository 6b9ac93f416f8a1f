//! Resolution of extension names to their dynamically assigned codes, and the
//! connection interface that requests are sent through.
use vstd::prelude::*;

verus! {

/// The codes that the server assigned to an extension on one connection.
#[derive(Debug, Clone, Copy, PartialEq, Eq, Structural)]
pub struct ExtensionInformation {
    /// Major opcode of the extension's requests.
    pub major_opcode: u8,
    /// Lowest event number used by the extension.
    pub first_event: u8,
    /// Lowest error number used by the extension.
    pub first_error: u8,
}

/// A failure at the level of the connection.
#[derive(Debug, Clone, Copy, PartialEq, Eq, Structural)]
pub enum ConnectionError {
    /// The server does not have the extension that a request belongs to.
    UnsupportedExtension,
    /// The connection was closed or failed.
    ConnectionClosed,
    /// A well-framed reply did not decode into the expected shape.
    MalformedReply,
}

/// A handle on the reply to a request that was sent.
#[derive(Debug, Clone, Copy, PartialEq, Eq, Structural)]
pub struct Cookie {
    /// The sequence number that the transport gave the request.
    pub sequence_number: u64,
}

/// A connection to the server, as the requests of this library need it.
pub trait RequestConnection {
    /// Sends one request, whose reply the caller will wait for.
    fn send_request_with_reply(&self, bytes: Vec<u8>) -> Result<Cookie, ConnectionError>;

    /// Sends one request that has no reply.
    fn send_request_without_reply(&self, bytes: Vec<u8>) -> Result<(), ConnectionError>;

    /// The codes of the extension named `name`, or `None` where the server lacks it.
    fn extension_information(&self, name: &str) -> Result<
        Option<ExtensionInformation>,
        ConnectionError,
    >;
}

/// One resolved extension name.
#[derive(Debug)]
pub struct ExtensionEntry {
    name: String,
    info: Option<ExtensionInformation>,
}

/// The latest entry for `name` in `entries`: `None` where there is none.
pub open spec fn lookup_entry(entries: Seq<(Seq<char>, Option<ExtensionInformation>)>, name: Seq<
    char,
>) -> Option<Option<ExtensionInformation>>
    decreases entries.len(),
{
    if entries.len() == 0 {
        None
    } else if entries.last().0 == name {
        Some(entries.last().1)
    } else {
        lookup_entry(entries.drop_last(), name)
    }
}

/// One step of resolution: a name already resolved keeps its answer and the
/// query's outcome is not looked at; otherwise an answer of the query is
/// recorded, and a connection failure is handed on without being recorded.
pub open spec fn resolve_step(
    cache: Seq<(Seq<char>, Option<ExtensionInformation>)>,
    name: Seq<char>,
    queried: Result<Option<ExtensionInformation>, ConnectionError>,
) -> (Seq<(Seq<char>, Option<ExtensionInformation>)>, Result<
    Option<ExtensionInformation>,
    ConnectionError,
>) {
    match lookup_entry(cache, name) {
        Some(info) => (cache, Ok(info)),
        None => match queried {
            Ok(info) => (cache.push((name, info)), Ok(info)),
            Err(e) => (cache, Err(e)),
        },
    }
}

/// Resolving a name a second time gives the answer of the first resolution,
/// leaves the cache as it was, and does not depend on a second query.
pub proof fn lemma_resolution_idempotent(
    cache: Seq<(Seq<char>, Option<ExtensionInformation>)>,
    name: Seq<char>,
    first: Result<Option<ExtensionInformation>, ConnectionError>,
    second: Result<Option<ExtensionInformation>, ConnectionError>,
)
    requires
        resolve_step(cache, name, first).1 is Ok,
    ensures
        resolve_step(resolve_step(cache, name, first).0, name, second) == resolve_step(
            cache,
            name,
            first,
        ),
        lookup_entry(resolve_step(cache, name, first).0, name) is Some,
{
    let next = resolve_step(cache, name, first).0;
    if lookup_entry(cache, name) is None {
        assert(next.drop_last() =~= cache);
    }
}

/// The per-connection cache of resolved extension names.
#[derive(Debug)]
pub struct ExtensionManager {
    entries: Vec<ExtensionEntry>,
}

impl ExtensionManager {
    /// The resolved names with their answers, oldest first.
    pub closed spec fn view(&self) -> Seq<(Seq<char>, Option<ExtensionInformation>)> {
        self.entries@.map_values(|e: ExtensionEntry| (e.name@, e.info))
    }

    /// A cache in which no name is resolved.
    pub fn new() -> (r: ExtensionManager)
        ensures
            r@ == Seq::<(Seq<char>, Option<ExtensionInformation>)>::empty(),
    {
        let r = ExtensionManager { entries: Vec::new() };
        assert(r@ =~= Seq::<(Seq<char>, Option<ExtensionInformation>)>::empty());
        r
    }

    /// The answer recorded for `name`, or `None` where it is not resolved yet.
    pub fn cached(&self, name: &str) -> (r: Option<Option<ExtensionInformation>>)
        ensures
            r == lookup_entry(self@, name@),
    {
        let key = name.to_owned();
        let mut i: usize = self.entries.len();
        assert(self@.take(i as int) =~= self@);
        while i > 0
            invariant
                i <= self@.len(),
                self@.len() == self.entries@.len(),
                key@ == name@,
                lookup_entry(self@, name@) == lookup_entry(self@.take(i as int), name@),
            decreases i,
        {
            assert(self@.take(i as int).drop_last() =~= self@.take(i - 1));
            if self.entries[i - 1].name == key {
                return Some(self.entries[i - 1].info);
            }
            i = i - 1;
        }
        None
    }

    /// Records the answer of the server for `name`, unless one is recorded already.
    pub fn record(&mut self, name: &str, info: Option<ExtensionInformation>)
        ensures
            final(self)@ == resolve_step(old(self)@, name@, Ok(info)).0,
    {
        if self.cached(name).is_none() {
            self.entries.push(ExtensionEntry { name: name.to_owned(), info });
            assert(self@ =~= old(self)@.push((name@, info)));
        }
    }

    /// The codes of the extension named `name`: from the cache where it was
    /// resolved before, else by asking `query` once and recording the answer.
    pub fn extension_information<C: RequestConnection>(&mut self, query: &C, name: &str) -> (r:
        Result<Option<ExtensionInformation>, ConnectionError>)
        ensures
            exists|q: Result<Option<ExtensionInformation>, ConnectionError>|
                #[trigger] resolve_step(old(self)@, name@, q) == (final(self)@, r),
    {
        match self.cached(name) {
            Some(info) => {
                assert(resolve_step(old(self)@, name@, Ok(info)) == (self@, Ok::<
                    Option<ExtensionInformation>,
                    ConnectionError,
                >(info)));
                Ok(info)
            },
            None => {
                let q = query.extension_information(name);
                match q {
                    Ok(info) => {
                        self.record(name, info);
                        assert(resolve_step(old(self)@, name@, q) == (self@, q));
                        Ok(info)
                    },
                    Err(e) => {
                        assert(resolve_step(old(self)@, name@, q) == (self@, q));
                        Err(e)
                    },
                }
            },
        }
    }
}

} // verus!
