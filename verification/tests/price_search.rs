use g2g_client::search::{
    fetch_skin_prices, fold_offer, quote_for, reduce, CatalogOffer, FoldedOffer, PriceBatch,
    PriceQuote, SkinPriceRequest,
};
use g2g_client::transport::ApiError;

fn offer(cents: i64, title: Option<&str>, description: Option<&str>) -> CatalogOffer {
    CatalogOffer {
        unit_price: cents,
        title: title.map(|t| t.to_string()),
        description: description.map(|d| d.to_string()),
    }
}

fn sample() -> Vec<CatalogOffer> {
    vec![
        offer(500, Some("Ahri"), None),
        offer(300, Some("Zed"), None),
        offer(900, None, Some("ahri skin")),
    ]
}

#[test]
fn quote_is_the_lowest_price_among_matches() {
    let quote = quote_for("ahri", &sample());
    assert_eq!(quote, PriceQuote::Exact(500));
    assert_eq!(quote.display(), "$5.00");
}

#[test]
fn quote_matches_whatever_the_case_of_the_term() {
    assert_eq!(quote_for("AHRI", &sample()), PriceQuote::Exact(500));
    assert_eq!(quote_for("zEd", &sample()), PriceQuote::Exact(300));
    assert_eq!(quote_for("Ahri Skin", &sample()), PriceQuote::Exact(900));
}

#[test]
fn quote_without_a_match_is_the_approximate_minimum() {
    let quote = quote_for("vayne", &sample());
    assert_eq!(quote, PriceQuote::Approximate(300));
    assert_eq!(quote.display(), "~$3.00");
}

#[test]
fn quote_of_an_empty_result_set_is_no_offers() {
    let quote = quote_for("ahri", &Vec::new());
    assert_eq!(quote, PriceQuote::NoOffers);
    assert_eq!(quote.display(), "No offers");
    assert_eq!(quote.cents(), 0);
}

#[test]
fn quote_ignores_offers_without_texts_when_matching() {
    let offers = vec![offer(100, None, None), offer(700, Some("Lux"), Some("elementalist lux"))];
    assert_eq!(quote_for("lux", &offers), PriceQuote::Exact(700));
    assert_eq!(quote_for("", &offers), PriceQuote::Exact(700));
    assert_eq!(quote_for("jinx", &offers), PriceQuote::Approximate(100));
}

#[test]
fn quote_takes_the_minimum_of_equal_and_later_matches() {
    let offers = vec![
        offer(800, Some("Ahri"), None),
        offer(250, None, Some("K/DA AHRI")),
        offer(250, Some("ahri"), None),
        offer(100, Some("Zed"), None),
    ];
    assert_eq!(quote_for("ahri", &offers), PriceQuote::Exact(250));
}

#[test]
fn reduce_works_on_folded_offers_as_given() {
    let folded = vec![
        FoldedOffer { unit_price: 500, title: Some("ahri".chars().collect()), description: None },
        FoldedOffer { unit_price: 300, title: Some("Ahri".chars().collect()), description: None },
    ];
    let term: Vec<char> = "ahri".chars().collect();
    assert_eq!(reduce(&term, &folded), PriceQuote::Exact(500));
    let other: Vec<char> = "zed".chars().collect();
    assert_eq!(reduce(&other, &folded), PriceQuote::Approximate(300));
    assert_eq!(reduce(&term, &Vec::new()), PriceQuote::NoOffers);
}

#[test]
fn folding_puts_texts_in_lower_case_and_keeps_the_price() {
    let folded = fold_offer(&offer(42, Some("AhRi"), None));
    assert_eq!(folded.unit_price, 42);
    assert_eq!(folded.title, Some("ahri".chars().collect::<Vec<char>>()));
    assert_eq!(folded.description, None);
}

#[test]
fn prices_are_shown_in_dollars_with_two_decimals() {
    assert_eq!(PriceQuote::Exact(0).display(), "$0.00");
    assert_eq!(PriceQuote::Exact(5).display(), "$0.05");
    assert_eq!(PriceQuote::Exact(50).display(), "$0.50");
    assert_eq!(PriceQuote::Exact(99).display(), "$0.99");
    assert_eq!(PriceQuote::Exact(100).display(), "$1.00");
    assert_eq!(PriceQuote::Exact(123456).display(), "$1234.56");
    assert_eq!(PriceQuote::Approximate(1009).display(), "~$10.09");
    assert_eq!(PriceQuote::Exact(i64::MAX).display(), "$92233720368547758.07");
}

#[test]
fn prices_below_zero_are_shown_with_their_sign() {
    assert_eq!(PriceQuote::Exact(-5).display(), "$-0.05");
    assert_eq!(PriceQuote::Exact(-500).display(), "$-5.00");
    assert_eq!(PriceQuote::Approximate(-123456).display(), "~$-1234.56");
    assert_eq!(PriceQuote::Exact(i64::MIN).display(), "$-92233720368547758.08");
    assert_eq!(PriceQuote::Exact(-500).cents(), -500);
}

#[test]
fn quote_takes_prices_below_zero_as_they_come() {
    let offers = vec![
        offer(500, Some("Ahri"), None),
        offer(-300, Some("Zed"), None),
        offer(-100, Some("ahri"), None),
    ];
    assert_eq!(quote_for("ahri", &offers), PriceQuote::Exact(-100));
    assert_eq!(quote_for("vayne", &offers), PriceQuote::Approximate(-300));
}

#[test]
fn batch_counts_only_prices_above_zero() {
    let mut batch = batch_of(&["A", "B", "C"]);
    batch.record(Ok(PriceQuote::Exact(-700)));
    batch.record(Ok(PriceQuote::Exact(200)));
    batch.record(Ok(PriceQuote::Approximate(-1)));
    let response = batch.finish();
    let shown: Vec<&str> = response.prices.iter().map(|p| p.price.as_str()).collect();
    assert_eq!(shown, vec!["$-7.00", "$2.00", "~$-0.01"]);
    assert_eq!(response.total_value, "$2.00");
    assert_eq!(response.most_expensive.expect("a dearest line").skin_name, "B");
}

fn batch_of(skins: &[&str]) -> PriceBatch {
    fetch_skin_prices(SkinPriceRequest {
        skins: skins.iter().map(|s| s.to_string()).collect(),
        server: "EUW".to_string(),
    })
}

#[test]
fn batch_sums_prices_and_names_the_dearest() {
    let mut batch = batch_of(&["Ahri", "Zed", "Vayne"]);
    assert_eq!(batch.server(), "EUW");
    assert_eq!(batch.next_skin(), Some("Ahri"));
    let pause = batch.record(Ok(PriceQuote::Exact(500)));
    assert!(matches!(pause, Some(ms) if (2000..3500).contains(&ms)));
    assert_eq!(batch.next_skin(), Some("Zed"));
    let pause = batch.record(Err(ApiError::Transport { detail: "timeout".to_string() }));
    assert!(matches!(pause, Some(ms) if (2000..3500).contains(&ms)));
    assert_eq!(batch.next_skin(), Some("Vayne"));
    let pause = batch.record(Ok(PriceQuote::Approximate(300)));
    assert_eq!(pause, None);
    assert_eq!(batch.next_skin(), None);

    let response = batch.finish();
    let lines: Vec<(&str, &str)> = response
        .prices
        .iter()
        .map(|p| (p.skin_name.as_str(), p.price.as_str()))
        .collect();
    assert_eq!(lines, vec![("Ahri", "$5.00"), ("Zed", "Error"), ("Vayne", "~$3.00")]);
    assert_eq!(response.total_value, "$8.00");
    let dearest = response.most_expensive.expect("a dearest line");
    assert_eq!(dearest.skin_name, "Ahri");
    assert_eq!(dearest.price, "$5.00");
}

#[test]
fn batch_without_prices_has_no_dearest_line() {
    let mut batch = batch_of(&["A", "B", "C"]);
    batch.record(Ok(PriceQuote::NoOffers));
    batch.record(Err(ApiError::OutOfTurn));
    batch.record(Ok(PriceQuote::Exact(0)));
    let response = batch.finish();
    assert_eq!(response.total_value, "$0.00");
    assert!(response.most_expensive.is_none());
    let shown: Vec<&str> = response.prices.iter().map(|p| p.price.as_str()).collect();
    assert_eq!(shown, vec!["No offers", "Error", "$0.00"]);
}

#[test]
fn batch_keeps_the_first_of_equally_dear_lines() {
    let mut batch = batch_of(&["A", "B", "C"]);
    batch.record(Ok(PriceQuote::Exact(100)));
    batch.record(Ok(PriceQuote::Approximate(700)));
    batch.record(Ok(PriceQuote::Exact(700)));
    let response = batch.finish();
    assert_eq!(response.total_value, "$15.00");
    let dearest = response.most_expensive.expect("a dearest line");
    assert_eq!(dearest.skin_name, "B");
    assert_eq!(dearest.price, "~$7.00");
}

#[test]
fn batch_of_one_term_never_pauses() {
    let mut batch = batch_of(&["Only"]);
    assert_eq!(batch.record(Ok(PriceQuote::Exact(1))), None);
    assert_eq!(batch.next_skin(), None);
}

#[test]
fn batch_drops_outcomes_beyond_its_terms() {
    let mut batch = batch_of(&[]);
    assert_eq!(batch.next_skin(), None);
    assert_eq!(batch.record(Ok(PriceQuote::Exact(999))), None);
    let response = batch.finish();
    assert!(response.prices.is_empty());
    assert_eq!(response.total_value, "$0.00");
    assert!(response.most_expensive.is_none());
}

#[test]
fn batch_total_does_not_overflow() {
    let mut batch = batch_of(&["A", "B"]);
    batch.record(Ok(PriceQuote::Exact(i64::MAX)));
    batch.record(Ok(PriceQuote::Exact(i64::MAX)));
    let response = batch.finish();
    assert_eq!(response.total_value, "$184467440737095516.14");
}
