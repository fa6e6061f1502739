use vstd::prelude::*;
use vstd::string::*;
use vstd::hash_set::StringHashSet;
use crate::exchange::types::{Market, MarketStatus, Token};
use crate::util::time::UnixTime;

verus! {

/// The market id that a token id names: the text before the first `-`, or
/// the whole token id where it holds none.
pub open spec fn is_market_id_of_token(token_id: Seq<char>, market_id: Seq<char>) -> bool {
    &&& market_id.len() <= token_id.len()
    &&& market_id == token_id.take(market_id.len() as int)
    &&& forall|i: int| 0 <= i < market_id.len() ==> market_id[i] != '-'
    &&& market_id.len() == token_id.len() || token_id[market_id.len() as int] == '-'
}

/// Reads the market id out of a token id of the form `<market>-<outcome>`:
/// everything before the first `-`.
pub fn market_id_of_token(token_id: &str) -> (res: String)
    ensures
        is_market_id_of_token(token_id@, res@),
{
    let n = token_id.unicode_len();
    let mut end: usize = 0;
    while end < n && token_id.get_char(end) != '-'
        invariant
            n == token_id@.len(),
            end <= n,
            forall|i: int| 0 <= i < end ==> token_id@[i] != '-',
        decreases n - end,
    {
        end = end + 1;
    }
    let prefix = token_id.substring_char(0, end);
    String::from_str(prefix)
}

/// A token id built as `<market>-<outcome>` from a market id without a dash
/// reads back as that market id, and as nothing else.
pub proof fn lemma_token_id_names_its_market(market_id: Seq<char>, outcome: Seq<char>, read: Seq<char>)
    requires
        forall|i: int| 0 <= i < market_id.len() ==> market_id[i] != '-',
    ensures
        is_market_id_of_token(market_id + seq!['-'] + outcome, market_id),
        is_market_id_of_token(market_id + seq!['-'] + outcome, read) ==> read == market_id,
{
    let token_id = market_id + seq!['-'] + outcome;
    assert(token_id.take(market_id.len() as int) =~= market_id);
    assert(token_id[market_id.len() as int] == '-');
    if is_market_id_of_token(token_id, read) {
        if read.len() < market_id.len() {
            assert(token_id[read.len() as int] == market_id[read.len() as int]);
        } else if read.len() > market_id.len() {
            assert(read[market_id.len() as int] == token_id[market_id.len() as int]);
        }
        assert(read =~= market_id);
    }
}

/// The two outcome tokens of a binary market: `<market>-yes` with outcome
/// `Yes`, then `<market>-no` with outcome `No`.
pub fn outcome_tokens(market_id: &str) -> (res: Vec<Token>)
    ensures
        res.len() == 2,
        res[0].id@ == market_id@ + "-yes"@,
        res[0].market_id@ == market_id@,
        res[0].outcome@ == "Yes"@,
        res[1].id@ == market_id@ + "-no"@,
        res[1].market_id@ == market_id@,
        res[1].outcome@ == "No"@,
{
    let yes = Token {
        id: String::from_str(market_id).concat("-yes"),
        market_id: String::from_str(market_id),
        outcome: String::from_str("Yes"),
    };
    let no = Token {
        id: String::from_str(market_id).concat("-no"),
        market_id: String::from_str(market_id),
        outcome: String::from_str("No"),
    };
    let mut res = Vec::new();
    res.push(yes);
    res.push(no);
    res
}

/// The outcome tokens of a market whose id holds no dash name that market:
/// their ids read back as the market id.
pub proof fn lemma_outcome_tokens_name_their_market(market_id: Seq<char>)
    requires
        forall|i: int| 0 <= i < market_id.len() ==> market_id[i] != '-',
    ensures
        is_market_id_of_token(market_id + "-yes"@, market_id),
        is_market_id_of_token(market_id + "-no"@, market_id),
{
    reveal_strlit("-yes");
    reveal_strlit("yes");
    reveal_strlit("-no");
    reveal_strlit("no");
    assert(market_id + "-yes"@ =~= market_id + seq!['-'] + "yes"@);
    assert(market_id + "-no"@ =~= market_id + seq!['-'] + "no"@);
    lemma_token_id_names_its_market(market_id, "yes"@, market_id);
    lemma_token_id_names_its_market(market_id, "no"@, market_id);
}

/// Some market of `per_market` has a token with id `id`.
pub open spec fn is_listed_token_id(per_market: Seq<Vec<Token>>, id: Seq<char>) -> bool {
    exists|i: int, j: int|
        0 <= i < per_market.len() && 0 <= j < per_market[i]@.len() && #[trigger] per_market[i]@[j].id@ == id
}

/// `ids` holds each id at most once.
pub open spec fn no_repeated_ids(ids: Seq<String>) -> bool {
    forall|a: int, b: int| 0 <= a < b < ids.len() ==> #[trigger] ids[a]@ != #[trigger] ids[b]@
}

/// `ids` holds `id`.
pub open spec fn holds(ids: Seq<String>, id: Seq<char>) -> bool {
    exists|k: int| 0 <= k < ids.len() && ids[k]@ == id
}

/// The token ids of all markets, each once: every id listed for some market
/// and no other.
pub fn unique_token_ids(per_market: &Vec<Vec<Token>>) -> (res: Vec<String>)
    ensures
        no_repeated_ids(res@),
        forall|k: int| 0 <= k < res@.len() ==> is_listed_token_id(per_market@, #[trigger] res@[k]@),
        forall|id: Seq<char>| is_listed_token_id(per_market@, id) ==> #[trigger] holds(res@, id),
{
    let mut seen = StringHashSet::new();
    let mut ids: Vec<String> = Vec::new();
    let n = per_market.len();
    for i in 0..n
        invariant
            n == per_market@.len(),
            forall|x: Seq<char>| #[trigger] seen@.contains(x) <==> holds(ids@, x),
            no_repeated_ids(ids@),
            forall|k: int| 0 <= k < ids@.len() ==> is_listed_token_id(per_market@, #[trigger] ids@[k]@),
            forall|p: int, q: int| 0 <= p < i && 0 <= q < per_market@[p]@.len() ==> holds(ids@, #[trigger] per_market@[p]@[q].id@),
    {
        let tokens = &per_market[i];
        let m = tokens.len();
        for j in 0..m
            invariant
                n == per_market@.len(),
                0 <= i < n,
                tokens == per_market@[i as int],
                m == tokens@.len(),
                forall|x: Seq<char>| #[trigger] seen@.contains(x) <==> holds(ids@, x),
                no_repeated_ids(ids@),
                forall|k: int| 0 <= k < ids@.len() ==> is_listed_token_id(per_market@, #[trigger] ids@[k]@),
                forall|p: int, q: int| 0 <= p < i && 0 <= q < per_market@[p]@.len() ==> holds(ids@, #[trigger] per_market@[p]@[q].id@),
                forall|q: int| 0 <= q < j ==> holds(ids@, #[trigger] tokens@[q].id@),
        {
            let id = &tokens[j].id;
            let ghost before = ids@;
            assert(per_market@[i as int]@[j as int].id@ == id@);
            if seen.insert(id.clone()) {
                ids.push(id.clone());
                assert forall|x: Seq<char>| holds(before, x) implies holds(ids@, x) by {
                    let k0 = choose|k: int| 0 <= k < before.len() && before[k]@ == x;
                    assert(ids@[k0] == before[k0]);
                }
                assert(ids@[before.len() as int]@ == id@);
                assert(holds(ids@, id@));
                assert forall|x: Seq<char>| #[trigger] seen@.contains(x) <==> holds(ids@, x) by {
                    if holds(ids@, x) && x != id@ {
                        let k0 = choose|k: int| 0 <= k < ids@.len() && ids@[k]@ == x;
                        assert(ids@[k0] == before[k0]);
                    }
                }
                assert forall|k: int| 0 <= k < ids@.len() implies is_listed_token_id(per_market@, #[trigger] ids@[k]@) by {
                    if k < before.len() {
                        assert(ids@[k] == before[k]);
                    } else {
                        assert(per_market@[i as int]@[j as int].id@ == ids@[k]@);
                    }
                }
                assert forall|a: int, b: int| 0 <= a < b < ids@.len() implies #[trigger] ids@[a]@ != #[trigger] ids@[b]@ by {
                    if b == before.len() {
                        assert(ids@[a] == before[a]);
                    } else {
                        assert(ids@[a] == before[a] && ids@[b] == before[b]);
                    }
                }
            }
            assert(holds(ids@, tokens@[j as int].id@));
        }
    }
    assert forall|id: Seq<char>| is_listed_token_id(per_market@, id) implies #[trigger] holds(ids@, id) by {
        let (p, q) = choose|p: int, q: int| 0 <= p < per_market@.len() && 0 <= q < per_market@[p]@.len() && #[trigger] per_market@[p]@[q].id@ == id;
        assert(holds(ids@, per_market@[p]@[q].id@));
    }
    ids
}

/// The character of decimal digit `d`.
pub open spec fn digit_char(d: nat) -> char {
    (48 + d) as char
}

/// The decimal numeral of `n`: its digits, most significant first, with no
/// sign and no leading zero.
pub open spec fn decimal_digits(n: nat) -> Seq<char>
    decreases n,
{
    if n < 10 {
        seq![digit_char(n)]
    } else {
        decimal_digits(n / 10).push(digit_char(n % 10))
    }
}

/// A decimal numeral holds digits only.
pub proof fn lemma_decimal_digits_are_digits(n: nat)
    ensures
        forall|k: int| 0 <= k < decimal_digits(n).len() ==> {
            let c = #[trigger] decimal_digits(n)[k];
            '0' <= c <= '9'
        },
    decreases n,
{
    if n >= 10 {
        lemma_decimal_digits_are_digits(n / 10);
        assert forall|k: int| 0 <= k < decimal_digits(n).len() implies {
            let c = #[trigger] decimal_digits(n)[k];
            '0' <= c <= '9'
        } by {
            if k < decimal_digits(n / 10).len() {
                assert(decimal_digits(n)[k] == decimal_digits(n / 10)[k]);
            }
        }
    }
}

/// Writes `n` in decimal through `ToString::to_string`, which for integers
/// goes through `Display`: the digits of `n`, most significant first, with no
/// sign, padding or leading zero.
#[verifier::external_body]
fn decimal(n: u64) -> (res: String)
    ensures
        res@ == decimal_digits(n as nat),
{
    n.to_string()
}

/// Number of markets in the mock catalogue.
pub const MOCK_MARKET_COUNT: u64 = 5;

/// Seconds in the week a mock market runs until it resolves.
pub const MOCK_RESOLUTION_SECS: i64 = 7 * 86_400;

/// The `i`-th market of the mock catalogue built at `now`: id `m<i>`, a
/// question on BTC closing above 40000 + 500·i, category `Crypto`, created
/// 10 + i minutes before `now`, resolving a week after `now`, open.
pub open spec fn is_mock_market(market: Market, now: UnixTime, i: nat) -> bool {
    &&& market.id@ == "m"@ + decimal_digits(i)
    &&& market.question@ == "Will BTC close above "@ + decimal_digits(40_000 + 500 * i) + " by end of week?"@
    &&& market.category matches Some(c) && c@ == "Crypto"@
    &&& market.created_ts.secs == now.secs - (10 + i) * 60
    &&& market.created_ts.nanos == now.nanos
    &&& market.resolution_ts matches Some(r) && r.secs == now.secs + MOCK_RESOLUTION_SECS && r.nanos
        == now.nanos
    &&& market.status == MarketStatus::Open
}

/// A `now` from which every mock market's times can be written.
pub open spec fn mock_time_in_range(now: UnixTime) -> bool {
    &&& now.is_regular()
    &&& i64::MIN + 14 * 60 <= now.secs <= i64::MAX - MOCK_RESOLUTION_SECS
}

/// The markets of the mock data source, built at `now`.
pub fn mock_markets(now: UnixTime) -> (res: Vec<Market>)
    requires
        mock_time_in_range(now),
    ensures
        res.len() == MOCK_MARKET_COUNT,
        forall|i: int| 0 <= i < res.len() ==> is_mock_market(#[trigger] res@[i], now, i as nat),
{
    let mut markets: Vec<Market> = Vec::new();
    for idx in 0..MOCK_MARKET_COUNT
        invariant
            mock_time_in_range(now),
            markets.len() == idx,
            forall|i: int| 0 <= i < markets.len() ==> is_mock_market(#[trigger] markets@[i], now, i as nat),
    {
        let digits = decimal(idx);
        let id = String::from_str("m").concat(digits.as_str());
        let threshold = decimal(40_000 + idx * 500);
        let mut question = String::from_str("Will BTC close above ");
        question.append(threshold.as_str());
        question.append(" by end of week?");
        let market = Market {
            id,
            question,
            category: Some(String::from_str("Crypto")),
            created_ts: UnixTime { secs: now.secs - (10 + idx as i64) * 60, nanos: now.nanos },
            resolution_ts: Some(UnixTime { secs: now.secs + MOCK_RESOLUTION_SECS, nanos: now.nanos }),
            status: MarketStatus::Open,
        };
        let ghost before = markets@;
        markets.push(market);
        assert forall|i: int| 0 <= i < markets.len() implies is_mock_market(#[trigger] markets@[i], now, i as nat) by {
            if i < before.len() {
                assert(markets@[i] == before[i]);
            }
        }
    }
    markets
}

/// The ids of the mock markets hold no dash, so their outcome tokens read
/// back as their market.
pub proof fn lemma_mock_tokens_name_their_market(market: Market, now: UnixTime, i: nat)
    requires
        is_mock_market(market, now, i),
    ensures
        is_market_id_of_token(market.id@ + "-yes"@, market.id@),
        is_market_id_of_token(market.id@ + "-no"@, market.id@),
{
    reveal_strlit("m");
    lemma_decimal_digits_are_digits(i);
    assert forall|k: int| 0 <= k < market.id@.len() implies market.id@[k] != '-' by {
        if k > 0 {
            assert(market.id@[k] == decimal_digits(i)[k - 1]);
        }
    }
    lemma_outcome_tokens_name_their_market(market.id@);
}

/// The mock data source's catalogue: its markets, each with its two outcome
/// tokens.
pub struct MockCatalogue {
    markets: Vec<Market>,
}

impl View for MockCatalogue {
    type V = Seq<Market>;

    closed spec fn view(&self) -> Seq<Market> {
        self.markets@
    }
}

/// Some market of the catalogue has id `market_id`.
pub open spec fn lists_market(markets: Seq<Market>, market_id: Seq<char>) -> bool {
    exists|k: int| 0 <= k < markets.len() && #[trigger] markets[k].id@ == market_id
}

impl MockCatalogue {
    /// The catalogue of the mock markets built at `now`.
    pub fn new(now: UnixTime) -> (res: MockCatalogue)
        requires
            mock_time_in_range(now),
        ensures
            res@.len() == MOCK_MARKET_COUNT,
            forall|i: int| 0 <= i < res@.len() ==> is_mock_market(#[trigger] res@[i], now, i as nat),
    {
        MockCatalogue { markets: mock_markets(now) }
    }

    /// The markets of the catalogue.
    pub fn markets(&self) -> (res: &Vec<Market>)
        ensures
            res@ == self@,
    {
        &self.markets
    }

    /// The outcome tokens of the market with id `market_id`, or none where
    /// the catalogue lists no such market.
    pub fn tokens_for_market(&self, market_id: &str) -> (res: Vec<Token>)
        ensures
            !lists_market(self@, market_id@) ==> res.len() == 0,
            lists_market(self@, market_id@) ==> {
                &&& res.len() == 2
                &&& res[0].id@ == market_id@ + "-yes"@
                &&& res[0].market_id@ == market_id@
                &&& res[0].outcome@ == "Yes"@
                &&& res[1].id@ == market_id@ + "-no"@
                &&& res[1].market_id@ == market_id@
                &&& res[1].outcome@ == "No"@
            },
    {
        let wanted = String::from_str(market_id);
        let n = self.markets.len();
        for k in 0..n
            invariant
                n == self.markets@.len(),
                wanted@ == market_id@,
                forall|q: int| 0 <= q < k ==> #[trigger] self.markets@[q].id@ != market_id@,
        {
            if self.markets[k].id == wanted {
                return outcome_tokens(market_id);
            }
        }
        Vec::new()
    }
}

} // verus!
