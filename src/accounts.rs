//! Selection of a linked game account on the account-list page.
use vstd::prelude::*;
use vstd::string::StringExecFns;
use crate::page::{account_labels, labels_of};

verus! {

/// CSS selector of the entries of the account list.
pub const ACCOUNT_OPTIONS: &'static str = "#ddlCPID option";

/// One entry of the account list: the `value` attribute of its element and
/// its first text node, where it has them.
pub struct AccountEntry {
    pub value: Option<String>,
    pub text: Option<String>,
}

pub open spec fn opt_view(o: Option<String>) -> Option<Seq<char>> {
    match o {
        Some(s) => Some(s@),
        None => None,
    }
}

impl View for AccountEntry {
    type V = (Option<Seq<char>>, Option<Seq<char>>);

    open spec fn view(&self) -> Self::V {
        (opt_view(self.value), opt_view(self.text))
    }
}

pub open spec fn entries_view(es: Seq<AccountEntry>) -> Seq<(Option<Seq<char>>, Option<Seq<char>>)> {
    es.map_values(|e: AccountEntry| e@)
}

/// What the HTML parser finds in `html` for the CSS selector `selector`:
/// none where the selector does not parse, else each element that it
/// selects, in the order the parser inserted them, as its `value` attribute
/// and first text node.
pub uninterp spec fn selected_entries(html: Seq<char>, selector: Seq<char>) -> Option<Seq<(Option<Seq<char>>, Option<Seq<char>>)>>;

/// Relies on scraper's `Html::parse_document`, `Selector::parse`,
/// `Html::select`, `ElementRef::attr` and `ElementRef::text`: the elements
/// that the selector picks, in the order the parser inserted them.
#[verifier::external_body]
pub fn select_entries(html: &str, selector: &str) -> (r: Option<Vec<AccountEntry>>)
    ensures
        match r {
            Some(v) => selected_entries(html@, selector@) == Some(entries_view(v@)),
            None => selected_entries(html@, selector@) is None,
        },
{
    let selector = scraper::Selector::parse(selector).ok()?;
    let document = scraper::Html::parse_document(html);
    let mut v = Vec::new();
    for e in document.select(&selector) {
        let value = e.value().attr("value").map(String::from);
        v.push(AccountEntry { value, text: e.text().next().map(String::from) });
    }
    Some(v)
}

/// Why no account was selected.
#[derive(PartialEq, Eq, Structural, Clone, Copy, Debug)]
pub enum SelectError {
    /// The first entry that carries the identifier lacks its value.
    MalformedEntry,
    /// No entry carries the identifier in either label.
    NotFound,
}

/// Whether the entry's text holds two labels of which one is `aid`.
pub open spec fn entry_matches(e: (Option<Seq<char>>, Option<Seq<char>>), aid: Seq<char>) -> bool {
    match e.1 {
        Some(t) => match labels_of(t) {
            Some((first, second)) => first == aid || second == aid,
            None => false,
        },
        None => false,
    }
}

/// The entry chosen for `aid`, scanning from index `k`: the first that
/// matches, which must carry a value; entries without two labels are skipped.
pub open spec fn select_from(es: Seq<(Option<Seq<char>>, Option<Seq<char>>)>, aid: Seq<char>, k: int) -> Result<int, SelectError>
    decreases es.len() - k,
{
    if k < 0 || k >= es.len() {
        Err(SelectError::NotFound)
    } else if entry_matches(es[k], aid) {
        if es[k].0 is None {
            Err(SelectError::MalformedEntry)
        } else {
            Ok(k)
        }
    } else {
        select_from(es, aid, k + 1)
    }
}

/// The entry chosen for `aid` among `es`.
pub open spec fn selection(es: Seq<(Option<Seq<char>>, Option<Seq<char>>)>, aid: Seq<char>) -> Result<int, SelectError> {
    select_from(es, aid, 0)
}

/// Chooses the entry for the attraction identifier `aid`: the first whose
/// labels include it.
pub fn choose_account(entries: &Vec<AccountEntry>, aid: &str) -> (r: Result<usize, SelectError>)
    ensures
        match r {
            Ok(k) => selection(entries_view(entries@), aid@) == Ok::<int, SelectError>(k as int),
            Err(e) => selection(entries_view(entries@), aid@) == Err::<int, SelectError>(e),
        },
        r matches Ok(k) ==> k < entries.len() && entries@[k as int].value is Some,
{
    let ghost es = entries_view(entries@);
    let target = String::from_str(aid);
    let mut k: usize = 0;
    while k < entries.len()
        invariant
            k <= entries.len(),
            es == entries_view(entries@),
            target@ == aid@,
            selection(es, aid@) == select_from(es, aid@, k as int),
        decreases entries.len() - k,
    {
        let e = &entries[k];
        assert(es[k as int] == e@);
        let hit = match &e.text {
            Some(text) => match account_labels(text.as_str()) {
                Some((first, second)) => first == target || second == target,
                None => false,
            },
            None => false,
        };
        if hit {
            return match &e.value {
                Some(_) => Ok(k),
                None => Err(SelectError::MalformedEntry),
            };
        }
        k += 1;
    }
    Err(SelectError::NotFound)
}

} // verus!
