//! Attribute codes: the fixed tables that turn a server region, a rank tier
//! and the champion and skin counts of an account into the categorical
//! identifiers that the marketplace expects.
//!
//! All functions are pure. An input that a table does not list resolves to
//! the table's default, so a lookup never yields an empty code. Server names
//! are looked up in upper case, so their letter case does not matter; the
//! search filter table lists the aliases of a server beside its code.

use vstd::prelude::*;
use crate::text::{same, uppercase, uppercase_text};

verus! {

/// One categorical attribute of an offer: the collection it belongs to and the
/// entry chosen from that collection.
#[derive(Debug, Clone)]
pub struct OfferAttribute {
    pub collection_id: String,
    pub dataset_id: String,
}

/// Whether `name` is a server code or alias, in upper case, that the search
/// filter table lists.
pub open spec fn is_listed_server_name(name: Seq<char>) -> bool {
    ||| name == "EUW"@
    ||| name == "EUROPE WEST"@
    ||| name == "EUNE"@
    ||| name == "EUROPE NORDIC & EAST"@
    ||| name == "NA"@
    ||| name == "NORTH AMERICA"@
    ||| name == "NA1"@
    ||| name == "BR"@
    ||| name == "BR1"@
    ||| name == "BRAZIL"@
    ||| name == "LAN"@
    ||| name == "LAS"@
    ||| name == "OCE"@
    ||| name == "OCEANIA"@
    ||| name == "TR"@
    ||| name == "TURKEY"@
    ||| name == "RU"@
    ||| name == "RUSSIA"@
    ||| name == "JP"@
    ||| name == "JAPAN"@
    ||| name == "KR"@
    ||| name == "KOREA"@
}

/// The search filter that combines the account-type facet with the region
/// facet of the default region.
pub open spec fn default_server_filter() -> Seq<char> {
    "e80c30d1:1a87dd85%7C319340f0:65ec9642"@
}

/// The composite search filter for a server code or alias in upper case, by
/// the table.
pub open spec fn server_filter_of(name: Seq<char>) -> Seq<char> {
    if name == "EUW"@ || name == "EUROPE WEST"@ {
        "e80c30d1:304244a1%7C319340f0:65ec9642"@
    } else if name == "EUNE"@ || name == "EUROPE NORDIC & EAST"@ {
        "e80c30d1:1a87dd85%7C319340f0:65ec9642"@
    } else if name == "NA"@ || name == "NORTH AMERICA"@ || name == "NA1"@ {
        "e80c30d1:e2f2c55b%7C319340f0:65ec9642"@
    } else if name == "BR"@ || name == "BR1"@ || name == "BRAZIL"@ {
        "e80c30d1:31e5d298%7C319340f0:65ec9642"@
    } else if name == "LAN"@ {
        "e80c30d1:302ba1e6%7C319340f0:65ec9642"@
    } else if name == "LAS"@ {
        "e80c30d1:f28899f5%7C319340f0:65ec9642"@
    } else if name == "OCE"@ || name == "OCEANIA"@ {
        "e80c30d1:5c030fef%7C319340f0:65ec9642"@
    } else if name == "TR"@ || name == "TURKEY"@ {
        "e80c30d1:2247e703%7C319340f0:65ec9642"@
    } else if name == "RU"@ || name == "RUSSIA"@ {
        "319340f0:65ec9642%7Ce80c30d1:d94d8d49"@
    } else if name == "JP"@ || name == "JAPAN"@ {
        "e80c30d1:e9926686%7C319340f0:65ec9642"@
    } else if name == "KR"@ || name == "KOREA"@ {
        "319340f0:65ec9642%7Ce80c30d1:a7bb0eb5"@
    } else {
        default_server_filter()
    }
}

/// The composite search filter for a server code or alias that is already in
/// upper case: the account-type facet joined with the facet of the region
/// that `name` stands for. A name that the table does not list resolves to
/// the default region.
pub fn server_filter_for_name(name: &str) -> (filter: &'static str)
    ensures
        filter@ == server_filter_of(name@),
        !is_listed_server_name(name@) ==> filter@ == default_server_filter(),
        filter@.len() == 37,
{
    proof {
        reveal_strlit("e80c30d1:304244a1%7C319340f0:65ec9642");
        reveal_strlit("e80c30d1:1a87dd85%7C319340f0:65ec9642");
        reveal_strlit("e80c30d1:e2f2c55b%7C319340f0:65ec9642");
        reveal_strlit("e80c30d1:31e5d298%7C319340f0:65ec9642");
        reveal_strlit("e80c30d1:302ba1e6%7C319340f0:65ec9642");
        reveal_strlit("e80c30d1:f28899f5%7C319340f0:65ec9642");
        reveal_strlit("e80c30d1:5c030fef%7C319340f0:65ec9642");
        reveal_strlit("e80c30d1:2247e703%7C319340f0:65ec9642");
        reveal_strlit("319340f0:65ec9642%7Ce80c30d1:d94d8d49");
        reveal_strlit("e80c30d1:e9926686%7C319340f0:65ec9642");
        reveal_strlit("319340f0:65ec9642%7Ce80c30d1:a7bb0eb5");
    }
    if same(name, "EUW") || same(name, "EUROPE WEST") {
        "e80c30d1:304244a1%7C319340f0:65ec9642"
    } else if same(name, "EUNE") || same(name, "EUROPE NORDIC & EAST") {
        "e80c30d1:1a87dd85%7C319340f0:65ec9642"
    } else if same(name, "NA") || same(name, "NORTH AMERICA") || same(name, "NA1") {
        "e80c30d1:e2f2c55b%7C319340f0:65ec9642"
    } else if same(name, "BR") || same(name, "BR1") || same(name, "BRAZIL") {
        "e80c30d1:31e5d298%7C319340f0:65ec9642"
    } else if same(name, "LAN") {
        "e80c30d1:302ba1e6%7C319340f0:65ec9642"
    } else if same(name, "LAS") {
        "e80c30d1:f28899f5%7C319340f0:65ec9642"
    } else if same(name, "OCE") || same(name, "OCEANIA") {
        "e80c30d1:5c030fef%7C319340f0:65ec9642"
    } else if same(name, "TR") || same(name, "TURKEY") {
        "e80c30d1:2247e703%7C319340f0:65ec9642"
    } else if same(name, "RU") || same(name, "RUSSIA") {
        "319340f0:65ec9642%7Ce80c30d1:d94d8d49"
    } else if same(name, "JP") || same(name, "JAPAN") {
        "e80c30d1:e9926686%7C319340f0:65ec9642"
    } else if same(name, "KR") || same(name, "KOREA") {
        "319340f0:65ec9642%7Ce80c30d1:a7bb0eb5"
    } else {
        "e80c30d1:1a87dd85%7C319340f0:65ec9642"
    }
}

/// The composite search filter for `server`, whatever its letter case and
/// whether it is a code or an alias: the name is put in upper case and then
/// looked up. Only a name that is neither resolves to the default region.
pub fn server_filter(server: &str) -> (filter: &'static str)
    ensures
        filter@ == server_filter_of(uppercase_text(server@)),
        !is_listed_server_name(uppercase_text(server@)) ==> filter@ == default_server_filter(),
        filter@.len() == 37,
{
    let upper = uppercase(server);
    server_filter_for_name(upper.as_str())
}

/// Whether `code` is an upper-case server code that the region table lists.
pub open spec fn is_listed_server_code(code: Seq<char>) -> bool {
    ||| code == "EUNE"@
    ||| code == "EUW"@
    ||| code == "NA"@
    ||| code == "NA1"@
    ||| code == "BR"@
    ||| code == "BR1"@
    ||| code == "LAN"@
    ||| code == "LAS"@
    ||| code == "OCE"@
    ||| code == "TR"@
    ||| code == "RU"@
    ||| code == "JP"@
    ||| code == "KR"@
}

/// The region entry of the default region.
pub open spec fn default_server_id() -> Seq<char> {
    "1a87dd85"@
}

/// The region entry for an upper-case server code, by the table.
pub open spec fn server_id_of(code: Seq<char>) -> Seq<char> {
    if code == "EUNE"@ {
        "1a87dd85"@
    } else if code == "EUW"@ {
        "304244a1"@
    } else if code == "NA"@ || code == "NA1"@ {
        "e2f2c55b"@
    } else if code == "BR"@ || code == "BR1"@ {
        "31e5d298"@
    } else if code == "LAN"@ {
        "302ba1e6"@
    } else if code == "LAS"@ {
        "d6ed5ab1"@
    } else if code == "OCE"@ {
        "e35ad6c4"@
    } else if code == "TR"@ {
        "5f8be29a"@
    } else if code == "RU"@ {
        "d94d8d49"@
    } else if code == "JP"@ {
        "8b6a5b8e"@
    } else if code == "KR"@ {
        "a7bb0eb5"@
    } else {
        default_server_id()
    }
}

/// The region entry for a server code that is already in upper case. A code
/// that the table does not list resolves to the default region.
pub fn server_id_for_code(code: &str) -> (id: &'static str)
    ensures
        id@ == server_id_of(code@),
        !is_listed_server_code(code@) ==> id@ == default_server_id(),
        id@.len() == 8,
{
    proof {
        reveal_strlit("1a87dd85");
        reveal_strlit("304244a1");
        reveal_strlit("e2f2c55b");
        reveal_strlit("31e5d298");
        reveal_strlit("302ba1e6");
        reveal_strlit("d6ed5ab1");
        reveal_strlit("e35ad6c4");
        reveal_strlit("5f8be29a");
        reveal_strlit("d94d8d49");
        reveal_strlit("8b6a5b8e");
        reveal_strlit("a7bb0eb5");
    }
    if same(code, "EUNE") {
        "1a87dd85"
    } else if same(code, "EUW") {
        "304244a1"
    } else if same(code, "NA") || same(code, "NA1") {
        "e2f2c55b"
    } else if same(code, "BR") || same(code, "BR1") {
        "31e5d298"
    } else if same(code, "LAN") {
        "302ba1e6"
    } else if same(code, "LAS") {
        "d6ed5ab1"
    } else if same(code, "OCE") {
        "e35ad6c4"
    } else if same(code, "TR") {
        "5f8be29a"
    } else if same(code, "RU") {
        "d94d8d49"
    } else if same(code, "JP") {
        "8b6a5b8e"
    } else if same(code, "KR") {
        "a7bb0eb5"
    } else {
        "1a87dd85"
    }
}

/// The region entry for `server`, whatever its letter case: the code is put
/// in upper case and then looked up.
pub fn get_server_id(server: &str) -> (id: &'static str)
    ensures
        id@ == server_id_of(uppercase_text(server@)),
        !is_listed_server_code(uppercase_text(server@)) ==> id@ == default_server_id(),
        id@.len() == 8,
{
    let upper = uppercase(server);
    server_id_for_code(upper.as_str())
}

/// Whether `rank` is a rank label that the rank table lists.
pub open spec fn is_listed_rank(rank: Seq<char>) -> bool {
    ||| rank == "Unranked"@
    ||| rank == "Has games"@
    ||| rank == "Iron"@
    ||| rank == "Bronze"@
    ||| rank == "Silver"@
    ||| rank == "Gold"@
    ||| rank == "Platinum"@
    ||| rank == "Emerald"@
    ||| rank == "Diamond"@
    ||| rank == "Master"@
    ||| rank == "Grandmaster"@
    ||| rank == "Challenger"@
}

/// The rank entry of an unranked account, which is also the default.
pub open spec fn default_rank_id() -> Seq<char> {
    "dc514fdf"@
}

/// The rank entry for a rank label, by the table.
pub open spec fn rank_id_of(rank: Seq<char>) -> Seq<char> {
    if rank == "Unranked"@ || rank == "Has games"@ {
        "dc514fdf"@
    } else if rank == "Iron"@ {
        "64174ec3"@
    } else if rank == "Bronze"@ {
        "bf08fd78"@
    } else if rank == "Silver"@ {
        "405dc68e"@
    } else if rank == "Gold"@ {
        "55077770"@
    } else if rank == "Platinum"@ {
        "8a193251"@
    } else if rank == "Emerald"@ {
        "297e3197"@
    } else if rank == "Diamond"@ {
        "3b06cc4c"@
    } else if rank == "Master"@ {
        "08f99b44"@
    } else if rank == "Grandmaster"@ {
        "447eb997"@
    } else if rank == "Challenger"@ {
        "99197149"@
    } else {
        default_rank_id()
    }
}

/// The rank entry for `rank`. Labels are matched exactly; one that the table
/// does not list resolves to the entry of an unranked account.
pub fn get_rank_id(rank: &str) -> (id: &'static str)
    ensures
        id@ == rank_id_of(rank@),
        !is_listed_rank(rank@) ==> id@ == default_rank_id(),
        id@.len() == 8,
{
    proof {
        reveal_strlit("dc514fdf");
        reveal_strlit("64174ec3");
        reveal_strlit("bf08fd78");
        reveal_strlit("405dc68e");
        reveal_strlit("55077770");
        reveal_strlit("8a193251");
        reveal_strlit("297e3197");
        reveal_strlit("3b06cc4c");
        reveal_strlit("08f99b44");
        reveal_strlit("447eb997");
        reveal_strlit("99197149");
    }
    if same(rank, "Unranked") || same(rank, "Has games") {
        "dc514fdf"
    } else if same(rank, "Iron") {
        "64174ec3"
    } else if same(rank, "Bronze") {
        "bf08fd78"
    } else if same(rank, "Silver") {
        "405dc68e"
    } else if same(rank, "Gold") {
        "55077770"
    } else if same(rank, "Platinum") {
        "8a193251"
    } else if same(rank, "Emerald") {
        "297e3197"
    } else if same(rank, "Diamond") {
        "3b06cc4c"
    } else if same(rank, "Master") {
        "08f99b44"
    } else if same(rank, "Grandmaster") {
        "447eb997"
    } else if same(rank, "Challenger") {
        "99197149"
    } else {
        "dc514fdf"
    }
}

/// The champion-count bracket for a number of champions, by its thresholds.
pub open spec fn champions_id_of(count: int) -> Seq<char> {
    if count > 159 {
        "3ee17abb"@
    } else if count > 129 {
        "dc9b65bb"@
    } else if count > 99 {
        "2ea03f75"@
    } else if count > 49 {
        "7bbf537c"@
    } else if count > 29 {
        "191cd6d7"@
    } else if count > 9 {
        "b03ce3d1"@
    } else {
        "b5d60c4b"@
    }
}

/// The champion-count bracket for `count` champions. Counts of nine or fewer,
/// negative ones included, fall in the lowest bracket.
pub fn get_champions_id(count: i32) -> (id: &'static str)
    ensures
        id@ == champions_id_of(count as int),
        id@.len() == 8,
{
    proof {
        reveal_strlit("3ee17abb");
        reveal_strlit("dc9b65bb");
        reveal_strlit("2ea03f75");
        reveal_strlit("7bbf537c");
        reveal_strlit("191cd6d7");
        reveal_strlit("b03ce3d1");
        reveal_strlit("b5d60c4b");
    }
    if count > 159 {
        "3ee17abb"
    } else if count > 129 {
        "dc9b65bb"
    } else if count > 99 {
        "2ea03f75"
    } else if count > 49 {
        "7bbf537c"
    } else if count > 29 {
        "191cd6d7"
    } else if count > 9 {
        "b03ce3d1"
    } else {
        "b5d60c4b"
    }
}

/// The skin-count bracket for a number of skins, by its thresholds.
pub open spec fn skins_id_of(count: int) -> Seq<char> {
    if count > 999 {
        "da83ec6e"@
    } else if count > 499 {
        "32895a53"@
    } else if count > 299 {
        "bbe13228"@
    } else if count > 99 {
        "70f8019b"@
    } else if count > 49 {
        "c1721794"@
    } else if count > 9 {
        "4be5718c"@
    } else {
        "ce97df6f"@
    }
}

/// The skin-count bracket for `count` skins. Counts of nine or fewer,
/// negative ones included, fall in the lowest bracket.
pub fn get_skins_id(count: i32) -> (id: &'static str)
    ensures
        id@ == skins_id_of(count as int),
        id@.len() == 8,
{
    proof {
        reveal_strlit("da83ec6e");
        reveal_strlit("32895a53");
        reveal_strlit("bbe13228");
        reveal_strlit("70f8019b");
        reveal_strlit("c1721794");
        reveal_strlit("4be5718c");
        reveal_strlit("ce97df6f");
    }
    if count > 999 {
        "da83ec6e"
    } else if count > 499 {
        "32895a53"
    } else if count > 299 {
        "bbe13228"
    } else if count > 99 {
        "70f8019b"
    } else if count > 49 {
        "c1721794"
    } else if count > 9 {
        "4be5718c"
    } else {
        "ce97df6f"
    }
}

/// Whether `attribute` names the given collection and entry.
pub open spec fn is_attribute(
    attribute: OfferAttribute,
    collection: Seq<char>,
    dataset: Seq<char>,
) -> bool {
    attribute.collection_id@ == collection && attribute.dataset_id@ == dataset
}

/// Whether `attributes` are the five attributes of a listing, in their fixed
/// order: region, account type, rank, champion bracket and skin bracket, with
/// `region` as the region entry.
pub open spec fn are_offer_attributes(
    attributes: Seq<OfferAttribute>,
    region: Seq<char>,
    rank: Seq<char>,
    champions_count: int,
    skins_count: int,
) -> bool {
    &&& attributes.len() == 5
    &&& is_attribute(attributes[0], "e80c30d1"@, region)
    &&& is_attribute(attributes[1], "319340f0"@, "65ec9642"@)
    &&& is_attribute(attributes[2], "eb7040e2"@, rank_id_of(rank))
    &&& is_attribute(attributes[3], "04862150"@, champions_id_of(champions_count))
    &&& is_attribute(attributes[4], "962f619a"@, skins_id_of(skins_count))
}

fn attribute(collection: &str, dataset: &str) -> (a: OfferAttribute)
    ensures
        is_attribute(a, collection@, dataset@),
{
    OfferAttribute { collection_id: collection.to_owned(), dataset_id: dataset.to_owned() }
}

/// The categorical attributes of a listing: region, account type, rank,
/// champion bracket and skin bracket, each resolved through its table.
pub fn create_offer_attributes(
    server: &str,
    rank: &str,
    champions_count: i32,
    skins_count: i32,
) -> (attributes: Vec<OfferAttribute>)
    ensures
        are_offer_attributes(
            attributes@,
            server_id_of(uppercase_text(server@)),
            rank@,
            champions_count as int,
            skins_count as int,
        ),
{
    let mut attributes: Vec<OfferAttribute> = Vec::new();
    attributes.push(attribute("e80c30d1", get_server_id(server)));
    attributes.push(attribute("319340f0", "65ec9642"));
    attributes.push(attribute("eb7040e2", get_rank_id(rank)));
    attributes.push(attribute("04862150", get_champions_id(champions_count)));
    attributes.push(attribute("962f619a", get_skins_id(skins_count)));
    attributes
}

} // verus!
