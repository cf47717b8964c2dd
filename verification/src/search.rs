//! Price search: the reduction of a catalog reply to a quote, and the
//! aggregation of the quotes of a batch.
//!
//! Prices are held in hundredths of a dollar. A quote is exact when some
//! offer mentions the search term, approximate when offers came back but none
//! mentions it, and empty when nothing came back.

use vstd::prelude::*;
use vstd::string::*;
use crate::flow::PauseKind;
use crate::pacing::{draw_pause, pause_ceiling, pause_floor};
use crate::text::{
    chars_of, contains, decimal_of, digit, digit_of, lowercase, lowercase_text, occurs,
    push_char, push_decimal,
};
use crate::transport::ApiError;

verus! {

/// One entry of a catalog reply. The unit price is in hundredths of a dollar
/// and is taken as it comes, below zero too.
#[derive(Debug, Clone)]
pub struct CatalogOffer {
    pub unit_price: i64,
    pub title: Option<String>,
    pub description: Option<String>,
}

/// A catalog entry whose texts have been put in lower case, ready for
/// matching.
#[derive(Debug, Clone)]
pub struct FoldedOffer {
    pub unit_price: i64,
    pub title: Option<Vec<char>>,
    pub description: Option<Vec<char>>,
}

/// The price found for a search term, in hundredths of a dollar.
#[derive(Debug, Clone, Copy, PartialEq, Eq, Structural)]
pub enum PriceQuote {
    /// The lowest price among the offers that mention the term.
    Exact(i64),
    /// No offer mentions the term: the lowest price among all offers.
    Approximate(i64),
    /// The catalog returned no offer at all.
    NoOffers,
}

/// One line of a price list: a search term and the price shown for it.
#[derive(Debug, Clone)]
pub struct SkinPrice {
    pub skin_name: String,
    pub price: String,
}

/// A batch of search terms for one server.
#[derive(Debug, Clone)]
pub struct SkinPriceRequest {
    pub skins: Vec<String>,
    pub server: String,
}

/// The result of a batch: one line per term, the sum of all prices found and
/// the dearest line.
#[derive(Debug, Clone)]
pub struct SkinPriceResponse {
    pub prices: Vec<SkinPrice>,
    pub total_value: String,
    pub most_expensive: Option<SkinPrice>,
}

/// An amount in hundredths of a dollar, written in dollars with two decimals.
pub open spec fn dollars_of(cents: nat) -> Seq<char> {
    decimal_of(cents / 100) + seq!['.', digit_of(((cents / 10) % 10) as int), digit_of(
        (cents % 10) as int,
    )]
}

/// An amount in hundredths of a dollar, written in dollars with two decimals
/// and with a minus sign where it is below zero.
pub open spec fn signed_dollars_of(cents: int) -> Seq<char> {
    if cents < 0 {
        seq!['-'] + dollars_of((-cents) as nat)
    } else {
        dollars_of(cents as nat)
    }
}

/// The price of a quote in hundredths of a dollar, or zero where it has none.
pub open spec fn price_of(quote: PriceQuote) -> int {
    match quote {
        PriceQuote::Exact(cents) => cents as int,
        PriceQuote::Approximate(cents) => cents as int,
        PriceQuote::NoOffers => 0,
    }
}

/// The text shown for a quote: `$X.XX`, `~$X.XX` or `No offers`.
pub open spec fn quote_text(quote: PriceQuote) -> Seq<char> {
    match quote {
        PriceQuote::Exact(cents) => seq!['$'] + signed_dollars_of(cents as int),
        PriceQuote::Approximate(cents) => seq!['~', '$'] + signed_dollars_of(cents as int),
        PriceQuote::NoOffers => "No offers"@,
    }
}

/// The text shown for the outcome of one search of a batch, where `None`
/// stands for a search that failed.
pub open spec fn entry_text(entry: Option<PriceQuote>) -> Seq<char> {
    match entry {
        Some(quote) => quote_text(quote),
        None => "Error"@,
    }
}

/// What a quote counts for in a batch, in hundredths of a dollar: its price
/// where that is above zero, and nothing otherwise.
pub open spec fn worth(entry: Option<PriceQuote>) -> nat {
    match entry {
        Some(quote) => if price_of(quote) > 0 {
            price_of(quote) as nat
        } else {
            0
        },
        None => 0,
    }
}

/// The sum of what the entries of a batch count for.
pub open spec fn total_worth(entries: Seq<Option<PriceQuote>>) -> nat
    decreases entries.len(),
{
    if entries.len() == 0 {
        0
    } else {
        total_worth(entries.drop_last()) + worth(entries.last())
    }
}

/// Whether entry `at` is the dearest of a batch: it has a price above zero,
/// no entry has a higher one, and no earlier entry has the same.
pub open spec fn is_dearest(entries: Seq<Option<PriceQuote>>, at: int) -> bool {
    &&& 0 <= at < entries.len()
    &&& worth(entries[at]) > 0
    &&& forall|other: int| 0 <= other < entries.len() ==> worth(entries[other]) <= worth(entries[at])
    &&& forall|earlier: int| 0 <= earlier < at ==> worth(entries[earlier]) < worth(entries[at])
}

/// Whether a text, where there is one, holds `term`.
pub open spec fn holds_term(text: Option<Vec<char>>, term: Seq<char>) -> bool {
    text matches Some(t) && occurs(t@, term)
}

/// Whether a folded offer mentions `term` in its title or description.
pub open spec fn folded_mentions(offer: FoldedOffer, term: Seq<char>) -> bool {
    holds_term(offer.description, term) || holds_term(offer.title, term)
}

/// Whether `quote` is the quote for `term` over the given folded offers.
pub open spec fn is_quote_of_folded(quote: PriceQuote, offers: Seq<FoldedOffer>, term: Seq<char>) -> bool {
    match quote {
        PriceQuote::Exact(price) => {
            &&& exists|i: int|
                0 <= i < offers.len() && folded_mentions(#[trigger] offers[i], term)
                    && offers[i].unit_price == price
            &&& forall|j: int|
                0 <= j < offers.len() && folded_mentions(#[trigger] offers[j], term) ==> price
                    <= offers[j].unit_price
        },
        PriceQuote::Approximate(price) => {
            &&& forall|j: int| 0 <= j < offers.len() ==> !folded_mentions(#[trigger] offers[j], term)
            &&& exists|i: int| 0 <= i < offers.len() && (#[trigger] offers[i]).unit_price == price
            &&& forall|j: int| 0 <= j < offers.len() ==> price <= (#[trigger] offers[j]).unit_price
        },
        PriceQuote::NoOffers => offers.len() == 0,
    }
}

/// Whether the text of an offer, where there is one, holds `term` once it is
/// put in lower case.
pub open spec fn text_mentions(text: Option<String>, term: Seq<char>) -> bool {
    text matches Some(t) && occurs(lowercase_text(t@), term)
}

/// Whether an offer mentions the lower-case `term` in its title or
/// description, whatever their letter case.
pub open spec fn mentions(offer: CatalogOffer, term: Seq<char>) -> bool {
    text_mentions(offer.description, term) || text_mentions(offer.title, term)
}

/// Whether `quote` is the quote for the lower-case `term` over the given
/// offers: the lowest price among the offers that mention the term; failing
/// that, the lowest price of all, marked approximate; failing that, none.
pub open spec fn is_quote_of(quote: PriceQuote, offers: Seq<CatalogOffer>, term: Seq<char>) -> bool {
    match quote {
        PriceQuote::Exact(price) => {
            &&& exists|i: int|
                0 <= i < offers.len() && mentions(#[trigger] offers[i], term) && offers[i].unit_price
                    == price
            &&& forall|j: int|
                0 <= j < offers.len() && mentions(#[trigger] offers[j], term) ==> price
                    <= offers[j].unit_price
        },
        PriceQuote::Approximate(price) => {
            &&& forall|j: int| 0 <= j < offers.len() ==> !mentions(#[trigger] offers[j], term)
            &&& exists|i: int| 0 <= i < offers.len() && (#[trigger] offers[i]).unit_price == price
            &&& forall|j: int| 0 <= j < offers.len() ==> price <= (#[trigger] offers[j]).unit_price
        },
        PriceQuote::NoOffers => offers.len() == 0,
    }
}

/// The quote for a term over given offers is determined: two quotes that both
/// are the quote are the same.
pub proof fn law_quote_is_determined(
    first: PriceQuote,
    second: PriceQuote,
    offers: Seq<CatalogOffer>,
    term: Seq<char>,
)
    requires
        is_quote_of(first, offers, term),
        is_quote_of(second, offers, term),
    ensures
        first == second,
{
}

/// Whether `folded` is `offer` with its texts put in lower case.
pub open spec fn is_folding_of(folded: FoldedOffer, offer: CatalogOffer) -> bool {
    &&& folded.unit_price == offer.unit_price
    &&& match (folded.title, offer.title) {
        (Some(f), Some(t)) => f@ == lowercase_text(t@),
        (None, None) => true,
        _ => false,
    }
    &&& match (folded.description, offer.description) {
        (Some(f), Some(t)) => f@ == lowercase_text(t@),
        (None, None) => true,
        _ => false,
    }
}

fn fold_text(text: &Option<String>) -> (folded: Option<Vec<char>>)
    ensures
        match (folded, *text) {
            (Some(f), Some(t)) => f@ == lowercase_text(t@),
            (None, None) => true,
            _ => false,
        },
{
    match text {
        Some(t) => {
            let lower = lowercase(t.as_str());
            Some(chars_of(lower.as_str()))
        },
        None => None,
    }
}

/// Puts the texts of an offer in lower case.
pub fn fold_offer(offer: &CatalogOffer) -> (folded: FoldedOffer)
    ensures
        is_folding_of(folded, *offer),
{
    FoldedOffer {
        unit_price: offer.unit_price,
        title: fold_text(&offer.title),
        description: fold_text(&offer.description),
    }
}

fn text_holds(text: &Option<Vec<char>>, term: &Vec<char>) -> (r: bool)
    ensures
        r == holds_term(*text, term@),
{
    match text {
        Some(t) => contains(t, term),
        None => false,
    }
}

/// The quote for `term` over offers whose texts are already in lower case:
/// the lowest price among the offers that hold the term in their title or
/// description; where none does, the lowest price of all offers, marked
/// approximate; where there is no offer, none.
pub fn reduce(term: &Vec<char>, offers: &Vec<FoldedOffer>) -> (quote: PriceQuote)
    ensures
        is_quote_of_folded(quote, offers@, term@),
{
    let mut best_match: Option<i64> = None;
    let mut best_any: Option<i64> = None;
    let mut i: usize = 0;
    while i < offers.len()
        invariant
            i <= offers.len(),
            match best_any {
                Some(price) => {
                    &&& exists|k: int| 0 <= k < i && (#[trigger] offers@[k]).unit_price == price
                    &&& forall|j: int| 0 <= j < i ==> price <= (#[trigger] offers@[j]).unit_price
                },
                None => i == 0,
            },
            match best_match {
                Some(price) => {
                    &&& exists|k: int|
                        0 <= k < i && folded_mentions(#[trigger] offers@[k], term@)
                            && offers@[k].unit_price == price
                    &&& forall|j: int|
                        0 <= j < i && folded_mentions(#[trigger] offers@[j], term@) ==> price
                            <= offers@[j].unit_price
                },
                None => forall|j: int| 0 <= j < i ==> !folded_mentions(#[trigger] offers@[j], term@),
            },
        decreases offers.len() - i,
    {
        let offer = &offers[i];
        let price = offer.unit_price;
        let hit = text_holds(&offer.description, term) || text_holds(&offer.title, term);
        assert(hit == folded_mentions(offers@[i as int], term@));
        best_any = match best_any {
            Some(least) => if price < least {
                Some(price)
            } else {
                Some(least)
            },
            None => Some(price),
        };
        if hit {
            best_match = match best_match {
                Some(least) => if price < least {
                    Some(price)
                } else {
                    Some(least)
                },
                None => Some(price),
            };
        }
        i = i + 1;
    }
    match best_match {
        Some(price) => PriceQuote::Exact(price),
        None => match best_any {
            Some(price) => PriceQuote::Approximate(price),
            None => PriceQuote::NoOffers,
        },
    }
}

/// Folding keeps what an offer mentions: a folded offer holds a term exactly
/// when the offer it was folded from mentions it.
pub proof fn lemma_folding_keeps_mentions(folded: FoldedOffer, offer: CatalogOffer, term: Seq<char>)
    requires
        is_folding_of(folded, offer),
    ensures
        folded_mentions(folded, term) == mentions(offer, term),
{
}

/// The quote for `term` over the offers of a catalog reply. The term and the
/// texts of the offers are compared in lower case, so letter case does not
/// matter.
pub fn quote_for(term: &str, offers: &Vec<CatalogOffer>) -> (quote: PriceQuote)
    ensures
        is_quote_of(quote, offers@, lowercase_text(term@)),
{
    let lower = lowercase(term);
    let needle = chars_of(lower.as_str());
    let mut folded: Vec<FoldedOffer> = Vec::new();
    let mut i: usize = 0;
    while i < offers.len()
        invariant
            i <= offers.len(),
            folded@.len() == i,
            forall|j: int| 0 <= j < i ==> is_folding_of(#[trigger] folded@[j], offers@[j]),
        decreases offers.len() - i,
    {
        folded.push(fold_offer(&offers[i]));
        i = i + 1;
    }
    let quote = reduce(&needle, &folded);
    proof {
        let term_lower = lowercase_text(term@);
        assert forall|j: int| 0 <= j < offers@.len() implies folded_mentions(
            #[trigger] folded@[j],
            term_lower,
        ) == mentions(offers@[j], term_lower) by {
            lemma_folding_keeps_mentions(folded@[j], offers@[j], term_lower);
        }
        match quote {
            PriceQuote::Exact(price) => {
                let k = choose|k: int|
                    0 <= k < folded@.len() && folded_mentions(#[trigger] folded@[k], term_lower)
                        && folded@[k].unit_price == price;
                assert(mentions(offers@[k], term_lower) && offers@[k].unit_price == price);
                assert forall|j: int|
                    0 <= j < offers@.len() && mentions(#[trigger] offers@[j], term_lower) implies price
                    <= offers@[j].unit_price by {
                    assert(folded_mentions(folded@[j], term_lower));
                }
            },
            PriceQuote::Approximate(price) => {
                let k = choose|k: int|
                    0 <= k < folded@.len() && (#[trigger] folded@[k]).unit_price == price;
                assert(offers@[k].unit_price == price);
                assert forall|j: int| 0 <= j < offers@.len() implies !mentions(
                    #[trigger] offers@[j],
                    term_lower,
                ) by {
                    assert(!folded_mentions(folded@[j], term_lower));
                }
                assert forall|j: int| 0 <= j < offers@.len() implies price <= (
                #[trigger] offers@[j]).unit_price by {
                    assert(price <= folded@[j].unit_price);
                }
            },
            PriceQuote::NoOffers => {},
        }
    }
    quote
}

/// Appends an amount in hundredths of a dollar to `s`, written in dollars
/// with two decimals.
pub fn push_dollars(s: &mut String, cents: u128)
    ensures
        final(s)@ == old(s)@ + dollars_of(cents as nat),
{
    let ghost before = s@;
    push_decimal(s, cents / 100);
    push_char(s, '.');
    push_char(s, digit(((cents / 10) % 10) as u8));
    push_char(s, digit((cents % 10) as u8));
    assert(s@ == before + dollars_of(cents as nat));
}

/// Appends an amount in hundredths of a dollar to `s`, written in dollars
/// with two decimals and with a minus sign where it is below zero.
pub fn push_signed_dollars(s: &mut String, cents: i64)
    ensures
        final(s)@ == old(s)@ + signed_dollars_of(cents as int),
{
    if cents < 0 {
        let ghost before = s@;
        push_char(s, '-');
        push_dollars(s, (-(cents as i128)) as u128);
        assert(s@ == before + (seq!['-'] + dollars_of((-cents) as nat)));
    } else {
        push_dollars(s, cents as u128);
    }
}

impl PriceQuote {
    /// The text shown for the quote: `$X.XX` for an exact price, `~$X.XX` for
    /// an approximate one, `No offers` where there is none.
    pub fn display(&self) -> (text: String)
        ensures
            text@ == quote_text(*self),
    {
        match self {
            PriceQuote::Exact(cents) => {
                let mut text = String::new();
                push_char(&mut text, '$');
                push_signed_dollars(&mut text, *cents);
                assert(text@ == seq!['$'] + signed_dollars_of(*cents as int));
                text
            },
            PriceQuote::Approximate(cents) => {
                let mut text = String::new();
                push_char(&mut text, '~');
                push_char(&mut text, '$');
                push_signed_dollars(&mut text, *cents);
                assert(text@ == seq!['~', '$'] + signed_dollars_of(*cents as int));
                text
            },
            PriceQuote::NoOffers => "No offers".to_owned(),
        }
    }

    /// The price of the quote in hundredths of a dollar, or zero where it has
    /// none.
    pub fn cents(&self) -> (cents: i64)
        ensures
            cents == price_of(*self),
    {
        match self {
            PriceQuote::Exact(cents) => *cents,
            PriceQuote::Approximate(cents) => *cents,
            PriceQuote::NoOffers => 0,
        }
    }
}

/// A batch of searches under way: the terms, and what has been found for the
/// terms searched so far.
///
/// The driver asks for the next term, runs one search for it, and records
/// the outcome; the batch says how long to pause before the next search.
pub struct PriceBatch {
    skins: Vec<String>,
    server: String,
    entries: Vec<Option<PriceQuote>>,
    prices: Vec<SkinPrice>,
    total: u128,
    dearest: Option<usize>,
    dearest_worth: u64,
}

/// What the outcome of one search is recorded as: its quote, or `None` where
/// the search failed.
pub open spec fn entry_of(outcome: Result<PriceQuote, ApiError>) -> Option<PriceQuote> {
    match outcome {
        Ok(quote) => Some(quote),
        Err(_) => None,
    }
}

proof fn lemma_total_worth_bounded(entries: Seq<Option<PriceQuote>>)
    ensures
        total_worth(entries) <= entries.len() * 0xffff_ffff_ffff_ffff,
    decreases entries.len(),
{
    if entries.len() > 0 {
        lemma_total_worth_bounded(entries.drop_last());
        assert((entries.len() - 1) * 0xffff_ffff_ffff_ffff + 0xffff_ffff_ffff_ffff == entries.len()
            * 0xffff_ffff_ffff_ffff) by (nonlinear_arith);
    }
}

impl PriceBatch {
    /// The invariant of a batch: every entry has its line, and the running
    /// sum and the dearest entry are those of the entries.
    pub closed spec fn wf(self) -> bool {
        &&& self.entries@.len() == self.prices@.len()
        &&& self.entries@.len() <= self.skins@.len()
        &&& forall|i: int|
            0 <= i < self.entries@.len() ==> (#[trigger] self.prices@[i]).skin_name@
                == self.skins@[i]@ && self.prices@[i].price@ == entry_text(self.entries@[i])
        &&& self.total == total_worth(self.entries@)
        &&& match self.dearest {
            Some(at) => is_dearest(self.entries@, at as int) && self.dearest_worth == worth(
                self.entries@[at as int],
            ),
            None => self.dearest_worth == 0 && forall|i: int|
                0 <= i < self.entries@.len() ==> worth(#[trigger] self.entries@[i]) == 0,
        }
    }

    /// The search terms of the batch, in order.
    pub closed spec fn terms(self) -> Seq<Seq<char>> {
        Seq::new(self.skins@.len(), |i: int| self.skins@[i]@)
    }

    /// The server that the batch searches on.
    pub closed spec fn server_name(self) -> Seq<char> {
        self.server@
    }

    /// What has been recorded so far: one entry for each term searched, in
    /// order.
    pub closed spec fn recorded(self) -> Seq<Option<PriceQuote>> {
        self.entries@
    }

    /// Starts a batch over the terms of `request`, with nothing recorded yet.
    pub fn new(request: SkinPriceRequest) -> (batch: PriceBatch)
        ensures
            batch.terms() == Seq::new(request.skins@.len(), |i: int| request.skins@[i]@),
            batch.server_name() == request.server@,
            batch.recorded().len() == 0,
            batch.wf(),
    {
        PriceBatch {
            skins: request.skins,
            server: request.server,
            entries: Vec::new(),
            prices: Vec::new(),
            total: 0,
            dearest: None,
            dearest_worth: 0,
        }
    }

    /// The server that the batch searches on.
    pub fn server(&self) -> (server: &str)
        ensures
            server@ == self.server_name(),
    {
        self.server.as_str()
    }

    /// The term to search next, or `None` when every term has been searched.
    pub fn next_skin(&self) -> (skin: Option<&str>)
        requires
            self.wf(),
        ensures
            self.recorded().len() <= self.terms().len(),
            match skin {
                Some(term) => self.recorded().len() < self.terms().len() && term@
                    == self.terms()[self.recorded().len() as int],
                None => self.recorded().len() == self.terms().len(),
            },
    {
        let done = self.entries.len();
        if done < self.skins.len() {
            Some(self.skins[done].as_str())
        } else {
            None
        }
    }

    /// Records the outcome of the search for the next term and says how long
    /// to pause before the search after it: a failed search counts as an
    /// entry without a price and does not end the batch. After the last term
    /// there is no pause. On a batch whose terms have all been searched the
    /// outcome is dropped.
    pub fn record(&mut self, outcome: Result<PriceQuote, ApiError>) -> (pause: Option<u64>)
        requires
            old(self).wf(),
        ensures
            final(self).wf(),
            final(self).terms() == old(self).terms(),
            final(self).server_name() == old(self).server_name(),
            final(self).recorded() == if old(self).recorded().len() < old(self).terms().len() {
                old(self).recorded().push(entry_of(outcome))
            } else {
                old(self).recorded()
            },
            pause is Some <==> final(self).recorded().len() < final(self).terms().len(),
            pause matches Some(millis) ==> pause_floor(PauseKind::InterSkin) <= millis
                < pause_ceiling(PauseKind::InterSkin),
    {
        let done = self.entries.len();
        if done >= self.skins.len() {
            return None;
        }
        let entry: Option<PriceQuote> = match outcome {
            Ok(quote) => Some(quote),
            Err(_) => None,
        };
        let (price, value): (String, u64) = match entry {
            Some(quote) => (
                quote.display(),
                if quote.cents() > 0 {
                    quote.cents() as u64
                } else {
                    0
                },
            ),
            None => ("Error".to_owned(), 0),
        };
        assert(value == worth(entry));
        let ghost before = self.entries@;
        proof {
            lemma_total_worth_bounded(before);
            assert(before.len() * 0xffff_ffff_ffff_ffff + 0xffff_ffff_ffff_ffff
                <= 0xffff_ffff_ffff_ffff * 0xffff_ffff_ffff_ffff + 0xffff_ffff_ffff_ffff)
                by (nonlinear_arith)
                requires
                    before.len() <= 0xffff_ffff_ffff_ffff,
            ;
            assert(before.push(entry).drop_last() == before);
        }
        self.total = self.total + value as u128;
        if value > self.dearest_worth {
            self.dearest = Some(done);
            self.dearest_worth = value;
        }
        self.prices.push(SkinPrice { skin_name: self.skins[done].clone(), price });
        self.entries.push(entry);
        if done + 1 < self.skins.len() {
            Some(draw_pause(PauseKind::InterSkin))
        } else {
            None
        }
    }

    /// Ends the batch: the lines recorded, the sum of their prices as
    /// `$X.XX`, and the dearest line, which is the first among those with the
    /// highest price above zero.
    pub fn finish(self) -> (response: SkinPriceResponse)
        requires
            self.wf(),
        ensures
            response.prices@.len() == self.recorded().len(),
            forall|i: int|
                0 <= i < self.recorded().len() ==> (#[trigger] response.prices@[i]).skin_name@
                    == self.terms()[i] && response.prices@[i].price@ == entry_text(
                    self.recorded()[i],
                ),
            response.total_value@ == seq!['$'] + dollars_of(total_worth(self.recorded())),
            match response.most_expensive {
                Some(line) => exists|at: int|
                    is_dearest(self.recorded(), at) && line.skin_name@ == self.terms()[at]
                        && line.price@ == entry_text(#[trigger] self.recorded()[at]),
                None => forall|i: int|
                    0 <= i < self.recorded().len() ==> worth(#[trigger] self.recorded()[i]) == 0,
            },
    {
        let mut total_value = String::new();
        push_char(&mut total_value, '$');
        push_dollars(&mut total_value, self.total);
        let most_expensive = match self.dearest {
            Some(at) => {
                let line = &self.prices[at];
                let copy = SkinPrice {
                    skin_name: line.skin_name.clone(),
                    price: line.price.clone(),
                };
                assert(is_dearest(self.recorded(), at as int) && copy.skin_name@
                    == self.terms()[at as int] && copy.price@ == entry_text(
                    self.recorded()[at as int],
                ));
                Some(copy)
            },
            None => None,
        };
        SkinPriceResponse { prices: self.prices, total_value, most_expensive }
    }
}

/// Starts the batch of searches that `request` asks for.
pub fn fetch_skin_prices(request: SkinPriceRequest) -> (batch: PriceBatch)
    ensures
        batch.terms() == Seq::new(request.skins@.len(), |i: int| request.skins@[i]@),
        batch.server_name() == request.server@,
        batch.recorded().len() == 0,
        batch.wf(),
{
    PriceBatch::new(request)
}

} // verus!
