//! The market summary of the data-lookup flow.
//!
//! One answer of the ranked-list endpoint becomes one message. For each
//! entry it shows the name, the main token address and, where the entry has
//! one, the price of its first token; an entry without a price keeps its
//! name and address and only loses the price line.
use vstd::prelude::*;
use crate::json::{decimal, decimal_string, json_len_at, json_parses, json_str_at, json_text_at, lookup_len, lookup_str, lookup_text};
use crate::text::{push_from, string_of, chars_of};

verus! {

/// Why no summary could be made.
#[derive(PartialEq, Eq, Structural, Debug, Clone, Copy)]
pub enum FetchError {
    /// The answer is not JSON.
    Parse,
    /// The answer holds no `data.data` array.
    MissingList,
}

/// One ranked project.
pub struct MarketEntry {
    pub name: String,
    pub address: String,
    pub price: Option<String>,
}

pub open spec fn entry_view(e: MarketEntry) -> (Seq<char>, Seq<char>, Option<Seq<char>>) {
    (e.name@, e.address@, match e.price { Some(p) => Some(p@), None => None })
}

/// The query, relative to the service's base address.
pub open spec fn market_path() -> Seq<char> {
    "/api/v2/projects?page=1&page_size=10&date_range=24h&sort_dim=volume"@
}

/// The address of the ranked list on the service at `base`.
pub fn market_url(base: &str) -> (r: String)
    ensures
        r@ == base@ + market_path(),
{
    String::from_str(base).concat("/api/v2/projects?page=1&page_size=10&date_range=24h&sort_dim=volume")
}

pub open spec fn list_pointer() -> Seq<char> {
    "/data/data"@
}

/// The pointer to `field` of entry `i`.
pub open spec fn entry_pointer(i: nat, field: Seq<char>) -> Seq<char> {
    "/data/data/"@ + decimal(i) + seq!['/'] + field
}

pub open spec fn or_empty(o: Option<Seq<char>>) -> Seq<char> {
    match o {
        Some(s) => s,
        None => Seq::empty(),
    }
}

/// Entry `i` of the document: its name and address (empty where absent),
/// and its first token's price, as the string it is or else as JSON text.
pub open spec fn entry_at(doc: Seq<char>, i: nat) -> (Seq<char>, Seq<char>, Option<Seq<char>>) {
    let price = entry_pointer(i, "tokens/0/price"@);
    (
        or_empty(json_str_at(doc, entry_pointer(i, "name"@))),
        or_empty(json_str_at(doc, entry_pointer(i, "main_token_address"@))),
        match json_str_at(doc, price) {
            Some(s) => Some(s),
            None => json_text_at(doc, price),
        },
    )
}

/// Where in the document field `field` of entry `i` is.
fn pointer_to(i: usize, field: &str) -> (r: String)
    ensures
        r@ == entry_pointer(i as nat, field@),
{
    let mut v = chars_of("/data/data/");
    let d = decimal_string(i);
    push_from(&mut v, &d, 0);
    v.push('/');
    let f = chars_of(field);
    push_from(&mut v, &f, 0);
    proof {
        assert(d@.skip(0) =~= d@);
        assert(f@.skip(0) =~= f@);
        assert(v@ =~= entry_pointer(i as nat, field@));
    }
    string_of(&v)
}

/// A string field of an entry of a document that parses.
fn entry_str(doc: &str, i: usize, field: &str) -> (r: String)
    requires
        json_parses(doc@),
    ensures
        r@ == or_empty(json_str_at(doc@, entry_pointer(i as nat, field@))),
{
    let p = pointer_to(i, field);
    match lookup_str(doc, p.as_str()) {
        Ok(Some(s)) => s,
        _ => String::new(),
    }
}

/// The first token's price of an entry of a document that parses.
fn entry_price(doc: &str, i: usize) -> (r: Option<String>)
    requires
        json_parses(doc@),
    ensures
        (match r { Some(p) => Some(p@), None => None }) == entry_at(doc@, i as nat).2,
{
    let p = pointer_to(i, "tokens/0/price");
    match lookup_str(doc, p.as_str()) {
        Ok(Some(s)) => Some(s),
        _ => match lookup_text(doc, p.as_str()) {
            Ok(t) => t,
            Err(_) => None,
        },
    }
}

/// The entries of the service's answer.
pub fn market_entries(doc: &str) -> (r: Result<Vec<MarketEntry>, FetchError>)
    ensures
        !json_parses(doc@) <==> r == Err::<Vec<MarketEntry>, FetchError>(FetchError::Parse),
        json_parses(doc@) && json_len_at(doc@, list_pointer()) is None <==> r == Err::<
            Vec<MarketEntry>,
            FetchError,
        >(FetchError::MissingList),
        r matches Ok(v) ==> {
            &&& json_len_at(doc@, list_pointer()) == Some(v@.len())
            &&& forall|i: int| 0 <= i < v@.len() ==> entry_view(#[trigger] v@[i]) == entry_at(doc@, i as nat)
        },
{
    let n = match lookup_len(doc, "/data/data") {
        Err(_) => return Err(FetchError::Parse),
        Ok(None) => return Err(FetchError::MissingList),
        Ok(Some(n)) => n,
    };
    let mut v: Vec<MarketEntry> = Vec::new();
    let mut i: usize = 0;
    while i < n
        invariant
            json_parses(doc@),
            json_len_at(doc@, list_pointer()) == Some(n as nat),
            i <= n,
            v@.len() == i,
            forall|j: int| 0 <= j < i ==> entry_view(#[trigger] v@[j]) == entry_at(doc@, j as nat),
        decreases n - i,
    {
        let name = entry_str(doc, i, "name");
        let address = entry_str(doc, i, "main_token_address");
        let price = entry_price(doc, i);
        v.push(MarketEntry { name, address, price });
        i = i + 1;
    }
    Ok(v)
}

/// The first `n` entries of the document.
pub open spec fn entries_at(doc: Seq<char>, n: nat) -> Seq<(Seq<char>, Seq<char>, Option<Seq<char>>)> {
    Seq::new(n, |i: int| entry_at(doc, i as nat))
}

/// The lines that show one entry, then a blank line.
pub open spec fn block(e: (Seq<char>, Seq<char>, Option<Seq<char>>)) -> Seq<char> {
    e.0 + seq!['\n'] + e.1 + seq!['\n'] + match e.2 {
        Some(p) => "Price: "@ + p + seq!['\n'],
        None => Seq::empty(),
    } + seq!['\n']
}

/// The blocks of all entries, in order.
pub open spec fn summary(es: Seq<(Seq<char>, Seq<char>, Option<Seq<char>>)>) -> Seq<char>
    decreases es.len(),
{
    if es.len() == 0 {
        Seq::empty()
    } else {
        summary(es.drop_last()) + block(es.last())
    }
}

/// The message that shows `entries`.
pub fn format_snapshot(entries: &Vec<MarketEntry>) -> (r: String)
    ensures
        r@ == summary(entries@.map_values(|e: MarketEntry| entry_view(e))),
{
    let ghost views = entries@.map_values(|e: MarketEntry| entry_view(e));
    let mut r = String::new();
    let mut i: usize = 0;
    while i < entries.len()
        invariant
            views == entries@.map_values(|e: MarketEntry| entry_view(e)),
            i <= entries@.len(),
            r@ == summary(views.take(i as int)),
        decreases entries@.len() - i,
    {
        let e = &entries[i];
        r.append(e.name.as_str());
        r.append("\n");
        r.append(e.address.as_str());
        r.append("\n");
        match &e.price {
            Some(p) => {
                r.append("Price: ");
                r.append(p.as_str());
                r.append("\n");
            },
            None => {},
        }
        r.append("\n");
        proof {
            reveal_strlit("\n");
            assert(views.take(i + 1).drop_last() =~= views.take(i as int));
            assert(views[i as int] == entry_view(entries@[i as int]));
            assert(r@ =~= summary(views.take(i + 1)));
        }
        i = i + 1;
    }
    proof {
        assert(views.take(i as int) =~= views);
    }
    r
}

/// The summary message for the service's answer.
pub fn snapshot_message(doc: &str) -> (r: Result<String, FetchError>)
    ensures
        !json_parses(doc@) <==> r == Err::<String, FetchError>(FetchError::Parse),
        json_parses(doc@) && json_len_at(doc@, list_pointer()) is None <==> r == Err::<
            String,
            FetchError,
        >(FetchError::MissingList),
        r matches Ok(s) ==> json_len_at(doc@, list_pointer()) matches Some(n) && s@ == summary(
            entries_at(doc@, n),
        ),
{
    match market_entries(doc) {
        Err(e) => Err(e),
        Ok(v) => {
            let s = format_snapshot(&v);
            assert(v@.map_values(|e: MarketEntry| entry_view(e)) =~= entries_at(doc@, v@.len()));
            Ok(s)
        },
    }
}

} // verus!
