//! The price oracle: trades of each AMM asset pair are buffered during a block;
//! at the start of the next block their liquidity-weighted average price and
//! volume are pushed into a ring of the last ten blocks, whose averages roll up
//! every ten blocks into a ring of hundreds, and those every hundred blocks into
//! a ring of thousands.
use vstd::prelude::*;
use crate::fixed::{spec_checked_div, spec_checked_mul, spec_from_integer, mul_div, Fixed, DIV};
use crate::types::{Balance, BlockNumber};

verus! {

/// Identifies an asset pair: the bytes of its name.
pub type AssetPairId = Vec<u8>;

/// Number of entries in a bucket queue.
pub const BUCKET_SIZE: u32 = 10u32;

#[derive(Clone, Copy, PartialEq, Eq, Debug, Structural)]
pub enum Error {
    /// Calculation error occurred while calculating average price
    PriceComputationError,
    /// An unexpected overflow occurred
    UpdateDataOverflow,
}

/// A trade: its price, traded amount and the liquidity of the pool.
#[derive(Clone, Copy, PartialEq, Eq, Debug, Structural)]
pub struct PriceEntry {
    pub price: Fixed,
    pub amount: Balance,
    pub liq_amount: Balance,
}

/// Average price and volume of a period.
#[derive(Clone, Copy, PartialEq, Eq, Debug, Structural)]
pub struct PriceInfo {
    pub avg_price: Fixed,
    pub volume: Balance,
}

/// The sum of a sequence of integers.
pub open spec fn seq_sum(s: Seq<int>) -> int
    decreases s.len(),
{
    if s.len() == 0 {
        0
    } else {
        seq_sum(s.drop_last()) + s.last()
    }
}

pub open spec fn entry_prices(s: Seq<PriceEntry>) -> Seq<int> {
    s.map_values(|e: PriceEntry| e.price.inner as int)
}

pub open spec fn entry_amounts(s: Seq<PriceEntry>) -> Seq<int> {
    s.map_values(|e: PriceEntry| e.amount as int)
}

pub open spec fn entry_liquidities(s: Seq<PriceEntry>) -> Seq<int> {
    s.map_values(|e: PriceEntry| e.liq_amount as int)
}

pub open spec fn info_prices(s: Seq<PriceInfo>) -> Seq<int> {
    s.map_values(|e: PriceInfo| e.avg_price.inner as int)
}

pub open spec fn info_volumes(s: Seq<PriceInfo>) -> Seq<int> {
    s.map_values(|e: PriceInfo| e.volume as int)
}

/// Sums of non-negative terms grow with the prefix.
proof fn lemma_prefix_sum_le(s: Seq<int>, i: int)
    requires
        0 <= i <= s.len(),
        forall|j: int| 0 <= j < s.len() ==> s[j] >= 0,
    ensures
        0 <= seq_sum(s.subrange(0, i)) <= seq_sum(s),
    decreases s.len(),
{
    if s.len() > 0 {
        let t = s.drop_last();
        if i == s.len() {
            assert(s.subrange(0, i) =~= s);
            lemma_prefix_sum_le(t, t.len() as int);
            assert(t.subrange(0, t.len() as int) =~= t);
        } else {
            lemma_prefix_sum_le(t, i);
            assert(t.subrange(0, i) =~= s.subrange(0, i));
        }
    }
}

/// The sum of a prefix one longer adds the next term.
proof fn lemma_prefix_sum_step(s: Seq<int>, i: int)
    requires
        0 <= i < s.len(),
    ensures
        seq_sum(s.subrange(0, i + 1)) == seq_sum(s.subrange(0, i)) + s[i],
{
    assert(s.subrange(0, i + 1).drop_last() =~= s.subrange(0, i));
}

impl PriceEntry {
    pub fn zero() -> (r: PriceEntry)
        ensures
            r == (PriceEntry { price: Fixed { inner: 0 }, amount: 0, liq_amount: 0 }),
    {
        PriceEntry { price: Fixed::zero(), amount: 0, liq_amount: 0 }
    }

    pub fn is_zero(&self) -> (r: bool)
        ensures
            r == (self.price.inner == 0 && self.amount == 0 && self.liq_amount == 0),
    {
        self.price.inner == 0 && self.amount == 0 && self.liq_amount == 0
    }

    /// Field-wise sum.
    pub fn add(self, other: PriceEntry) -> (r: PriceEntry)
        requires
            self.price.inner + other.price.inner <= u128::MAX,
            self.amount + other.amount <= u128::MAX,
            self.liq_amount + other.liq_amount <= u128::MAX,
        ensures
            r.price.inner == self.price.inner + other.price.inner,
            r.amount == self.amount + other.amount,
            r.liq_amount == self.liq_amount + other.liq_amount,
    {
        PriceEntry {
            price: Fixed { inner: self.price.inner + other.price.inner },
            amount: self.amount + other.amount,
            liq_amount: self.liq_amount + other.liq_amount,
        }
    }

    /// Field-wise sum of `entries`.
    pub fn sum(entries: &Vec<PriceEntry>) -> (r: PriceEntry)
        requires
            seq_sum(entry_prices(entries@)) <= u128::MAX,
            seq_sum(entry_amounts(entries@)) <= u128::MAX,
            seq_sum(entry_liquidities(entries@)) <= u128::MAX,
        ensures
            r.price.inner == seq_sum(entry_prices(entries@)),
            r.amount == seq_sum(entry_amounts(entries@)),
            r.liq_amount == seq_sum(entry_liquidities(entries@)),
    {
        let mut acc = PriceEntry::zero();
        let mut i: usize = 0;
        while i < entries.len()
            invariant
                0 <= i <= entries@.len(),
                seq_sum(entry_prices(entries@)) <= u128::MAX,
                seq_sum(entry_amounts(entries@)) <= u128::MAX,
                seq_sum(entry_liquidities(entries@)) <= u128::MAX,
                acc.price.inner == seq_sum(entry_prices(entries@).subrange(0, i as int)),
                acc.amount == seq_sum(entry_amounts(entries@).subrange(0, i as int)),
                acc.liq_amount == seq_sum(entry_liquidities(entries@).subrange(0, i as int)),
            decreases entries@.len() - i,
        {
            proof {
                let ps = entry_prices(entries@);
                let am = entry_amounts(entries@);
                let lq = entry_liquidities(entries@);
                lemma_prefix_sum_step(ps, i as int);
                lemma_prefix_sum_step(am, i as int);
                lemma_prefix_sum_step(lq, i as int);
                lemma_prefix_sum_le(ps, i + 1);
                lemma_prefix_sum_le(am, i + 1);
                lemma_prefix_sum_le(lq, i + 1);
            }
            acc = acc.add(entries[i]);
            i = i + 1;
        }
        proof {
            assert(entry_prices(entries@).subrange(0, i as int) =~= entry_prices(entries@));
            assert(entry_amounts(entries@).subrange(0, i as int) =~= entry_amounts(entries@));
            assert(entry_liquidities(entries@).subrange(0, i as int) =~= entry_liquidities(entries@));
        }
        acc
    }
}

/// A trade's price weighted by its liquidity: `price * liq_amount` in fixed point.
pub open spec fn weighted_price(e: PriceEntry) -> Option<u128> {
    spec_checked_mul(e.price.inner, spec_from_integer(e.liq_amount))
}

pub open spec fn weighted_prices(s: Seq<PriceEntry>) -> Seq<int> {
    s.map_values(|e: PriceEntry| weighted_price(e)->Some_0 as int)
}

/// Whether the price information of `entries` can be computed without an
/// arithmetic overflow in the weighting or the sums.
pub open spec fn price_info_computable(entries: Seq<PriceEntry>) -> bool {
    &&& forall|i: int| 0 <= i < entries.len() ==> (#[trigger] weighted_price(entries[i])) is Some
    &&& seq_sum(weighted_prices(entries)) <= u128::MAX
    &&& seq_sum(entry_amounts(entries)) <= u128::MAX
    &&& seq_sum(entry_liquidities(entries)) <= u128::MAX
}

/// The liquidity-weighted average price and the total volume of `entries`; `None`
/// when there is no liquidity or the average does not fit.
pub open spec fn spec_price_info(entries: Seq<PriceEntry>) -> Option<PriceInfo> {
    match spec_checked_div(seq_sum(weighted_prices(entries)) as u128, spec_from_integer(seq_sum(entry_liquidities(entries)) as u128)) {
        Some(p) => Some(PriceInfo { avg_price: Fixed { inner: p }, volume: seq_sum(entry_amounts(entries)) as Balance }),
        None => None,
    }
}

impl PriceInfo {
    pub fn default() -> (r: PriceInfo)
        ensures
            r == (PriceInfo { avg_price: Fixed { inner: 0 }, volume: 0 }),
    {
        PriceInfo { avg_price: Fixed::zero(), volume: 0 }
    }

    /// Field-wise sum.
    pub fn add(&self, other: &PriceInfo) -> (r: PriceInfo)
        requires
            self.avg_price.inner + other.avg_price.inner <= u128::MAX,
            self.volume + other.volume <= u128::MAX,
        ensures
            r.avg_price.inner == self.avg_price.inner + other.avg_price.inner,
            r.volume == self.volume + other.volume,
    {
        PriceInfo {
            avg_price: Fixed { inner: self.avg_price.inner + other.avg_price.inner },
            volume: self.volume + other.volume,
        }
    }

    /// The price information of a block's trades: the average of their prices
    /// weighted by liquidity, and their total traded amount.
    pub fn calculate_price_info(entries: &Vec<PriceEntry>) -> (r: Option<PriceInfo>)
        requires
            price_info_computable(entries@),
        ensures
            r == spec_price_info(entries@),
    {
        let mut intermediate_result: Vec<PriceEntry> = Vec::new();
        let mut i: usize = 0;
        while i < entries.len()
            invariant
                0 <= i <= entries@.len(),
                price_info_computable(entries@),
                intermediate_result@.len() == i,
                forall|j: int| 0 <= j < i ==> (#[trigger] intermediate_result@[j]) == (PriceEntry {
                    price: Fixed { inner: weighted_price(entries@[j])->Some_0 },
                    amount: entries@[j].amount,
                    liq_amount: entries@[j].liq_amount,
                }),
            decreases entries@.len() - i,
        {
            let x = entries[i];
            assert(weighted_price(entries@[i as int]) is Some);
            let price = match x.price.checked_mul(&Fixed::from_integer(x.liq_amount)) {
                Some(p) => p,
                None => {
                    assert(false);
                    Fixed::zero()
                },
            };
            intermediate_result.push(PriceEntry { price, amount: x.amount, liq_amount: x.liq_amount });
            i = i + 1;
        }
        proof {
            assert(entry_prices(intermediate_result@) =~= weighted_prices(entries@));
            assert(entry_amounts(intermediate_result@) =~= entry_amounts(entries@));
            assert(entry_liquidities(intermediate_result@) =~= entry_liquidities(entries@));
        }
        let sum = PriceEntry::sum(&intermediate_result);
        let weighted_avg_price = sum.price.checked_div(&Fixed::from_integer(sum.liq_amount))?;
        Some(PriceInfo { avg_price: weighted_avg_price, volume: sum.amount })
    }
}

/// A ring of the last ten price informations.
#[derive(Clone, Copy, PartialEq, Eq, Debug)]
pub struct BucketQueue {
    bucket: [PriceInfo; 10],
    last: u32,
}

/// `s / 10` as the fixed point division by ten computes it.
pub open spec fn spec_div_by_ten(s: u128) -> u128 {
    mul_div(s as int, DIV as int, 10 * DIV) as u128
}

proof fn lemma_div_by_ten_fits(s: u128)
    ensures
        spec_checked_div(s, spec_from_integer(10)) == Some(spec_div_by_ten(s)),
        spec_div_by_ten(s) <= s,
{
    assert(spec_from_integer(10) == 10 * DIV);
    if s != 0 {
        let p = s * DIV;
        let c = 10 * DIV;
        let q = p / (c as int);
        assert(q * c <= p) by (nonlinear_arith)
            requires q == p / (c as int), c > 0, p >= 0;
        assert(q * 10 <= s) by (nonlinear_arith)
            requires q * c <= p, c == 10 * DIV, p == s * DIV, q >= 0;
        if p > u128::MAX {
            assert(s >= 2) by (nonlinear_arith)
                requires p == s * DIV, p > u128::MAX;
        }
    }
}

impl BucketQueue {
    pub const BUCKET_SIZE: u32 = 10u32;

    #[verifier::type_invariant]
    spec fn well_formed(self) -> bool {
        self.last < 10
    }

    /// The ten entries, oldest first after the one at `spec_last`.
    pub closed spec fn spec_bucket(self) -> Seq<PriceInfo> {
        self.bucket@
    }

    /// The index of the most recent entry.
    pub closed spec fn spec_last(self) -> int {
        (self.last % 10) as int
    }

    /// A ring has ten entries, and its most recent one is among them.
    pub proof fn lemma_shape(self)
        ensures
            self.spec_bucket().len() == 10,
            0 <= self.spec_last() < 10,
    {
    }

    /// An empty queue: ten default entries, the most recent at index nine.
    pub fn default() -> (r: BucketQueue)
        ensures
            r.spec_bucket() =~= Seq::new(10, |i: int| PriceInfo { avg_price: Fixed { inner: 0 }, volume: 0 }),
            r.spec_last() == 9,
    {
        let q = BucketQueue { bucket: [PriceInfo::default(); 10], last: BUCKET_SIZE - 1 };
        proof {
            assert(q.bucket@.len() == 10);
        }
        q
    }

    /// Pushes `price_info` as the most recent entry, over the oldest.
    pub fn update_last(&mut self, price_info: PriceInfo)
        ensures
            final(self).spec_last() == (old(self).spec_last() + 1) % 10,
            final(self).spec_bucket() == old(self).spec_bucket().update((old(self).spec_last() + 1) % 10, price_info),
            final(self).spec_bucket()[final(self).spec_last()] == price_info,
    {
        proof {
            use_type_invariant(&*self);
        }
        let last = (self.last + 1) % BUCKET_SIZE;
        self.last = last;
        self.bucket[last as usize] = price_info;
    }

    /// The most recent entry.
    pub fn get_last(&self) -> (r: PriceInfo)
        ensures
            r == self.spec_bucket()[self.spec_last()],
    {
        proof {
            use_type_invariant(self);
        }
        self.bucket[self.last as usize]
    }

    /// The entry at `index`.
    pub fn index(&self, index: usize) -> (r: PriceInfo)
        requires
            index < 10,
        ensures
            r == self.spec_bucket()[index as int],
    {
        self.bucket[index]
    }

    /// The average of the ten entries: their prices and volumes summed and divided
    /// by ten.
    pub fn calculate_average(&self) -> (r: PriceInfo)
        requires
            seq_sum(info_prices(self.spec_bucket())) <= u128::MAX,
            seq_sum(info_volumes(self.spec_bucket())) <= u128::MAX,
        ensures
            r.avg_price.inner == spec_div_by_ten(seq_sum(info_prices(self.spec_bucket())) as u128),
            r.volume == seq_sum(info_volumes(self.spec_bucket())) / 10,
    {
        let mut sum = PriceInfo::default();
        let mut i: usize = 0;
        while i < 10
            invariant
                0 <= i <= 10,
                self.bucket@.len() == 10,
                seq_sum(info_prices(self.bucket@)) <= u128::MAX,
                seq_sum(info_volumes(self.bucket@)) <= u128::MAX,
                sum.avg_price.inner == seq_sum(info_prices(self.bucket@).subrange(0, i as int)),
                sum.volume == seq_sum(info_volumes(self.bucket@).subrange(0, i as int)),
            decreases 10 - i,
        {
            proof {
                let ps = info_prices(self.bucket@);
                let vs = info_volumes(self.bucket@);
                lemma_prefix_sum_step(ps, i as int);
                lemma_prefix_sum_step(vs, i as int);
                lemma_prefix_sum_le(ps, i + 1);
                lemma_prefix_sum_le(vs, i + 1);
            }
            sum = sum.add(&self.bucket[i]);
            i = i + 1;
        }
        proof {
            assert(info_prices(self.bucket@).subrange(0, 10) =~= info_prices(self.bucket@));
            assert(info_volumes(self.bucket@).subrange(0, 10) =~= info_volumes(self.bucket@));
            lemma_div_by_ten_fits(sum.avg_price.inner);
        }
        let avg_price = match sum.avg_price.checked_div(&Fixed::from_integer(BUCKET_SIZE as u128)) {
            Some(p) => p,
            None => Fixed::zero(),
        };
        PriceInfo { avg_price, volume: sum.volume / (BUCKET_SIZE as u128) }
    }
}


/// Whether two names are the same bytes.
pub fn bytes_eq(a: &Vec<u8>, b: &Vec<u8>) -> (r: bool)
    ensures
        r == (a@ == b@),
{
    if a.len() != b.len() {
        return false;
    }
    let mut i: usize = 0;
    while i < a.len()
        invariant
            0 <= i <= a@.len(),
            a@.len() == b@.len(),
            forall|j: int| 0 <= j < i ==> a@[j] == b@[j],
        decreases a@.len() - i,
    {
        if a[i] != b[i] {
            return false;
        }
        i = i + 1;
    }
    assert(a@ =~= b@);
    true
}

/// Starts tracking the asset pair `name` in the ring of the last ten blocks,
/// unless it is tracked already.
pub fn on_create_pool(data_ten: &mut Vec<(AssetPairId, BucketQueue)>, name: AssetPairId)
    ensures
        (exists|i: int| 0 <= i < old(data_ten)@.len() && (#[trigger] old(data_ten)@[i]).0@ == name@)
            ==> final(data_ten)@ == old(data_ten)@,
        !(exists|i: int| 0 <= i < old(data_ten)@.len() && (#[trigger] old(data_ten)@[i]).0@ == name@) ==> {
            &&& final(data_ten)@.len() == old(data_ten)@.len() + 1
            &&& final(data_ten)@.subrange(0, old(data_ten)@.len() as int) == old(data_ten)@
            &&& final(data_ten)@.last().0@ == name@
            &&& final(data_ten)@.last().1.spec_last() == 9
            &&& final(data_ten)@.last().1.spec_bucket() =~= Seq::new(10, |i: int| PriceInfo { avg_price: Fixed { inner: 0 }, volume: 0 })
        },
{
    let mut i: usize = 0;
    while i < data_ten.len()
        invariant
            0 <= i <= data_ten@.len(),
            forall|j: int| 0 <= j < i ==> (#[trigger] data_ten@[j]).0@ != name@,
        decreases data_ten@.len() - i,
    {
        if bytes_eq(&data_ten[i].0, &name) {
            return;
        }
        i = i + 1;
    }
    let ghost before = data_ten@;
    data_ten.push((name, BucketQueue::default()));
    assert(data_ten@.subrange(0, before.len() as int) =~= before);
}

/// Turns an AMM trade into a price entry: `normalized` is the trade's normalized
/// price and amount (`None` when it cannot be normalized), `liq_amount` the pool's
/// liquidity. Trades with a zero price, amount or liquidity are ignored.
pub fn price_entry_of_trade(normalized: Option<(Fixed, Balance)>, liq_amount: Balance) -> (r: Option<PriceEntry>)
    ensures
        r == (match normalized {
            None => None,
            Some((price, amount)) => if price.inner == 0 || amount == 0 || liq_amount == 0 {
                None
            } else {
                Some(PriceEntry { price, amount, liq_amount })
            },
        }),
{
    let (price, amount) = match normalized {
        Some(t) => t,
        None => return None,
    };
    if price.inner == 0 || amount == 0 || liq_amount == 0 {
        return None;
    }
    Some(PriceEntry { price, amount, liq_amount })
}

pub open spec fn buffer_view(b: Option<Vec<PriceEntry>>) -> Option<Seq<PriceEntry>> {
    match b {
        Some(v) => Some(v@),
        None => None,
    }
}

/// The price information pushed for a tracked pair: from its buffered trades
/// `buffered` when there are any, else its most recent entry again.
pub open spec fn ten_step(q: BucketQueue, buffered: Option<Seq<PriceEntry>>) -> Result<PriceInfo, Error> {
    match buffered {
        None => Ok(q.spec_bucket()[q.spec_last()]),
        Some(s) => if s.len() > u32::MAX {
            Err(Error::UpdateDataOverflow)
        } else {
            match spec_price_info(s) {
                None => Err(Error::PriceComputationError),
                Some(info) => Ok(info),
            }
        },
    }
}

/// What the start of a block changes besides the ring of the last ten blocks.
#[derive(Clone, Copy, PartialEq, Eq, Debug, Structural)]
pub struct DataUpdate {
    pub processed_buckets: u32,
    pub processed_trades: u32,
    /// Whether every tracked pair's ten-block ring is averaged into its hundred-block ring.
    pub roll_up_hundreds: bool,
    /// Whether every hundred-block ring is averaged into its thousand-block ring.
    pub roll_up_thousands: bool,
}

/// Whether the pair at `i` and all before it can be updated.
pub open spec fn updatable_up_to(data_ten: Seq<(AssetPairId, BucketQueue)>, buffers: Seq<Option<Vec<PriceEntry>>>, i: int) -> bool {
    forall|j: int| 0 <= j <= i ==> (#[trigger] ten_step(data_ten[j].1, buffer_view(buffers[j]))) is Ok
}

/// At the start of block `now`: every tracked pair in `data_ten`, in order, gets
/// the price information of its buffered trades (`buffers`, aligned with
/// `data_ten`) pushed into its ring. The first pair whose information cannot be
/// computed stops the update with an error; the pairs before it keep their new
/// entries. The counts of processed buckets and trades stay zero. On success the
/// result tells whether the rings roll up at this block: hundreds at every block
/// ending in 9, thousands at every block ending in 99, never at block 0.
pub fn update_data(
    data_ten: &mut Vec<(AssetPairId, BucketQueue)>,
    buffers: &Vec<Option<Vec<PriceEntry>>>,
    now: BlockNumber,
) -> (r: Result<DataUpdate, Error>)
    requires
        buffers@.len() == old(data_ten)@.len(),
        forall|i: int| 0 <= i < buffers@.len() ==> ((#[trigger] buffers@[i]) matches Some(v) ==> price_info_computable(v@)),
    ensures
        final(data_ten)@.len() == old(data_ten)@.len(),
        forall|i: int| 0 <= i < old(data_ten)@.len() ==> {
            &&& (#[trigger] final(data_ten)@[i]).0 == old(data_ten)@[i].0
            &&& updatable_up_to(old(data_ten)@, buffers@, i) ==> {
                let info = ten_step(old(data_ten)@[i].1, buffer_view(buffers@[i]))->Ok_0;
                &&& final(data_ten)@[i].1.spec_last() == (old(data_ten)@[i].1.spec_last() + 1) % 10
                &&& final(data_ten)@[i].1.spec_bucket()
                    == old(data_ten)@[i].1.spec_bucket().update((old(data_ten)@[i].1.spec_last() + 1) % 10, info)
            }
            &&& !updatable_up_to(old(data_ten)@, buffers@, i) ==> final(data_ten)@[i].1 == old(data_ten)@[i].1
        },
        r is Ok <==> updatable_up_to(old(data_ten)@, buffers@, old(data_ten)@.len() - 1),
        r matches Err(e) ==> exists|k: int| 0 <= k < old(data_ten)@.len()
            && updatable_up_to(old(data_ten)@, buffers@, k - 1)
            && ten_step(old(data_ten)@[k].1, buffer_view(buffers@[k])) == Err::<PriceInfo, Error>(e),
        r matches Ok(u) ==> u == (DataUpdate {
            processed_buckets: 0,
            processed_trades: 0,
            roll_up_hundreds: now != 0 && now % 10 == 9,
            roll_up_thousands: now != 0 && now % 100 == 99,
        }),
{
    let ghost old_data = data_ten@;
    let num_of_processed_buckets: u32 = 0;
    let num_of_processed_trades: u32 = 0;
    let mut i: usize = 0;
    while i < data_ten.len()
        invariant
            0 <= i <= data_ten@.len(),
            old_data == old(data_ten)@,
            data_ten@.len() == old_data.len(),
            buffers@.len() == old_data.len(),
            forall|k: int| 0 <= k < buffers@.len() ==> ((#[trigger] buffers@[k]) matches Some(v) ==> price_info_computable(v@)),
            updatable_up_to(old_data, buffers@, i - 1),
            forall|j: int| 0 <= j < old_data.len() ==> (#[trigger] data_ten@[j]).0 == old_data[j].0,
            forall|j: int| 0 <= j < i ==> {
                let info = ten_step(old_data[j].1, buffer_view(buffers@[j]))->Ok_0;
                &&& (#[trigger] data_ten@[j]).1.spec_last() == (old_data[j].1.spec_last() + 1) % 10
                &&& data_ten@[j].1.spec_bucket() == old_data[j].1.spec_bucket().update((old_data[j].1.spec_last() + 1) % 10, info)
            },
            forall|j: int| i <= j < old_data.len() ==> (#[trigger] data_ten@[j]).1 == old_data[j].1,
        decreases data_ten@.len() - i,
    {
        let result = match &buffers[i] {
            Some(prices) => {
                if prices.len() as u64 > u32::MAX as u64 {
                    proof {
                        assert(!updatable_up_to(old_data, buffers@, i as int)) by {
                            assert(ten_step(old_data[i as int].1, buffer_view(buffers@[i as int])) is Err);
                        }
                        assert forall|j: int| i <= j < old_data.len() implies !updatable_up_to(old_data, buffers@, j) by {
                            assert(ten_step(old_data[i as int].1, buffer_view(buffers@[i as int])) is Err);
                        }
                    }
                    return Err(Error::UpdateDataOverflow);
                }
                match PriceInfo::calculate_price_info(prices) {
                    Some(info) => info,
                    None => {
                        proof {
                            assert forall|j: int| i <= j < old_data.len() implies !updatable_up_to(old_data, buffers@, j) by {
                                assert(ten_step(old_data[i as int].1, buffer_view(buffers@[i as int])) is Err);
                            }
                        }
                        return Err(Error::PriceComputationError);
                    },
                }
            },
            None => data_ten[i].1.get_last(),
        };
        let mut q = data_ten[i].1;
        q.update_last(result);
        let ghost before = data_ten@;
        data_ten[i].1 = q;
        proof {
            assert forall|j: int| 0 <= j < old_data.len() && j != i implies (#[trigger] data_ten@[j]) == before[j] by {}
        }
        i = i + 1;
    }
    if now == 0 {
        return Ok(DataUpdate {
            processed_buckets: num_of_processed_buckets,
            processed_trades: num_of_processed_trades,
            roll_up_hundreds: false,
            roll_up_thousands: false,
        });
    }
    Ok(DataUpdate {
        processed_buckets: num_of_processed_buckets,
        processed_trades: num_of_processed_trades,
        roll_up_hundreds: now % (BUCKET_SIZE as u64) == (BUCKET_SIZE as u64) - 1,
        roll_up_thousands: now % ((BUCKET_SIZE * BUCKET_SIZE) as u64) == ((BUCKET_SIZE * BUCKET_SIZE) as u64) - 1,
    })
}

/// Pushes the average of `source` into `target`: how a ten-block ring rolls up
/// into its hundred-block ring, and a hundred-block ring into its thousand-block
/// ring.
pub fn roll_up(source: &BucketQueue, target: &mut BucketQueue)
    requires
        seq_sum(info_prices(source.spec_bucket())) <= u128::MAX,
        seq_sum(info_volumes(source.spec_bucket())) <= u128::MAX,
    ensures
        final(target).spec_last() == (old(target).spec_last() + 1) % 10,
        final(target).spec_bucket() == old(target).spec_bucket().update(
            (old(target).spec_last() + 1) % 10,
            PriceInfo {
                avg_price: Fixed { inner: spec_div_by_ten(seq_sum(info_prices(source.spec_bucket())) as u128) },
                volume: (seq_sum(info_volumes(source.spec_bucket())) / 10) as Balance,
            },
        ),
{
    let average = source.calculate_average();
    target.update_last(average);
}

} // verus!
