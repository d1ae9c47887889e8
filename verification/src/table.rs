//! Tables of items, optionally weighted (Faker's `OrderedDict` value→weight tables).
use vstd::prelude::*;
use crate::rng::{pcg_draw_u128, pcg_draw_u64, Rng};

verus! {

/// Running totals that a weighted table of `n` items may carry: one per item,
/// never decreasing, with a positive grand total.
pub open spec fn running_totals_ok(c: Seq<u64>, n: nat) -> bool {
    &&& c.len() == n
    &&& n > 0
    &&& forall|i: int, j: int| 0 <= i <= j < n ==> c[i] <= c[j]
    &&& c[n - 1] > 0
}

/// Python's `bisect_right` over running totals, clamped to the last index: the first
/// index from `j` on whose total exceeds `x`, else the last index.
pub open spec fn bisect_from(c: Seq<u64>, x: u64, j: int) -> int
    decreases c.len() - j,
{
    if j < 0 || j >= c.len() - 1 {
        c.len() - 1
    } else if c[j] > x {
        j
    } else {
        bisect_from(c, x, j + 1)
    }
}

/// The index `weighted_index` gives for `x`.
pub open spec fn bisect(c: Seq<u64>, x: u64) -> int {
    bisect_from(c, x, 0)
}

/// The index found by a scan that stopped at `r` lands where `bisect` does.
proof fn lemma_bisect_at(c: Seq<u64>, x: u64, r: int, k: int)
    requires
        0 <= k <= r < c.len(),
        forall|j: int| 0 <= j < r ==> c[j] <= x,
        r == c.len() - 1 || c[r] > x,
    ensures
        bisect_from(c, x, k) == r,
    decreases r - k,
{
    if k < r {
        lemma_bisect_at(c, x, r, k + 1);
    }
}

/// A table of items, optionally weighted.
#[derive(Debug, Clone)]
pub struct Table<T> {
    pub items: Vec<T>,
    /// Running totals of the (integer) weights; `None` means uniform.
    pub cum_weights: Option<Vec<u64>>,
}

impl<T> Table<T> {
    /// A table can be drawn from: it has items, and its running totals (if any) fit them.
    pub open spec fn wf(&self) -> bool {
        &&& self.items.len() > 0
        &&& (self.cum_weights matches Some(c) ==> running_totals_ok(c@, self.items.len() as nat))
    }

    /// The weight of item `i`: its step in the running totals, or 1 when uniform.
    pub open spec fn weight_at(&self, i: int) -> int {
        match self.cum_weights {
            Some(c) => if i == 0 {
                c@[0] as int
            } else {
                c@[i] - c@[i - 1]
            },
            None => 1,
        }
    }

    /// Whether `i` is an index this table can hand out when `use_weighting` is as given:
    /// in range, and of positive weight when weights are honored.
    pub open spec fn can_pick(&self, i: int, use_weighting: bool) -> bool {
        &&& 0 <= i < self.items.len()
        &&& (use_weighting ==> self.weight_at(i) > 0)
    }

    /// The sum of the weights (0 for a uniform table).
    pub open spec fn total_weight_spec(&self) -> nat {
        match self.cum_weights {
            Some(c) => if c.len() > 0 {
                c@[c.len() - 1] as nat
            } else {
                0
            },
            None => 0,
        }
    }

    pub fn len(&self) -> (r: usize)
        ensures
            r == self.items.len(),
    {
        self.items.len()
    }

    pub fn is_empty(&self) -> (r: bool)
        ensures
            r == (self.items.len() == 0),
    {
        self.items.len() == 0
    }

    /// The sum of the weights; 0 for a uniform table.
    pub fn total_weight(&self) -> (r: u64)
        ensures
            r == self.total_weight_spec(),
    {
        match &self.cum_weights {
            Some(c) => if c.len() > 0 {
                c[c.len() - 1]
            } else {
                0
            },
            None => 0,
        }
    }

    /// `(index, next state)` of a pick from `state`: with weights honored, `bisect` of one
    /// draw below the total weight; otherwise one draw below the number of items.
    pub open spec fn pick_draw(&self, state: u128, use_weighting: bool) -> (int, u128) {
        match self.cum_weights {
            Some(c) if use_weighting => {
                let (x, next) = pcg_draw_u64(state, (c@[c.len() - 1] - 1) as u64);
                (bisect(c@, x), next)
            },
            _ => {
                let (i, next) = pcg_draw_u64(state, (self.items.len() - 1) as u64);
                (i as int, next)
            },
        }
    }

    /// Picks the index of one item. Weights are honored when present and `use_weighting`
    /// is set; an item of weight zero is then never picked.
    pub fn pick(&self, rng: &mut Rng, use_weighting: bool) -> (r: usize)
        requires
            self.wf(),
        ensures
            self.can_pick(r as int, use_weighting),
            (r as int, final(rng).state_view()) == self.pick_draw(old(rng).state_view(), use_weighting),
    {
        match &self.cum_weights {
            Some(cum) => {
                if use_weighting {
                    let total = cum[cum.len() - 1];
                    let x = rng.below(total);
                    let i = weighted_index(cum, x);
                    proof {
                        lemma_weighted_index_positive(cum@, x, i as int);
                        lemma_bisect_at(cum@, x, i as int, 0);
                    }
                    i
                } else {
                    rng.index(self.items.len())
                }
            },
            None => rng.index(self.items.len()),
        }
    }
}

/// The index `weighted_index` lands on is one whose weight is positive.
proof fn lemma_weighted_index_positive(c: Seq<u64>, x: u64, i: int)
    requires
        running_totals_ok(c, c.len()),
        x < c[c.len() - 1],
        0 <= i < c.len(),
        forall|j: int| 0 <= j < i ==> c[j] <= x,
        i == c.len() - 1 || c[i] > x,
    ensures
        c[i] > x,
        i > 0 ==> c[i - 1] <= x,
{
}

impl Table<String> {
    /// `(item, next state)` of a pick from `state` (see [`Table::pick_draw`]).
    pub open spec fn draw(&self, state: u128, use_weighting: bool) -> (Seq<char>, u128) {
        let (i, next) = self.pick_draw(state, use_weighting);
        (self.items@[i]@, next)
    }

    /// Whether `s` is an item this table can hand out (see [`Table::can_pick`]).
    pub open spec fn yields(&self, s: Seq<char>, use_weighting: bool) -> bool {
        exists|i: int| self.can_pick(i, use_weighting) && #[trigger] self.items@[i]@ == s
    }

    /// Whether `s` is one of the items.
    pub open spec fn holds(&self, s: Seq<char>) -> bool {
        exists|i: int| 0 <= i < self.items.len() && #[trigger] self.items@[i]@ == s
    }
}

/// Picks one item of a table of strings.
pub fn pick_item(table: &Table<String>, rng: &mut Rng, use_weighting: bool) -> (r: String)
    requires
        table.wf(),
    ensures
        table.yields(r@, use_weighting),
        (r@, final(rng).state_view()) == table.draw(old(rng).state_view(), use_weighting),
{
    let i = table.pick(rng, use_weighting);
    let r = table.items[i].clone();
    assert(table.items@[i as int]@ == r@);
    r
}

/// Index of the first running total greater than `x` (Python's `bisect_right`), clamped
/// to the last index.
pub fn weighted_index(cum: &Vec<u64>, x: u64) -> (r: usize)
    requires
        cum.len() > 0,
        forall|i: int, j: int| 0 <= i <= j < cum.len() ==> cum@[i] <= cum@[j],
    ensures
        r < cum.len(),
        forall|j: int| 0 <= j < r ==> cum@[j] <= x,
        r == cum.len() - 1 || cum@[r as int] > x,
{
    let mut lo: usize = 0;
    let mut hi: usize = cum.len();
    while lo < hi
        invariant
            0 <= lo <= hi <= cum.len(),
            forall|i: int, j: int| 0 <= i <= j < cum.len() ==> cum@[i] <= cum@[j],
            forall|j: int| 0 <= j < lo ==> cum@[j] <= x,
            forall|j: int| hi <= j < cum.len() ==> cum@[j] > x,
        decreases hi - lo,
    {
        let mid = lo + (hi - lo) / 2;
        if cum[mid] <= x {
            lo = mid + 1;
        } else {
            hi = mid;
        }
    }
    if lo >= cum.len() {
        cum.len() - 1
    } else {
        lo
    }
}

/// Whether every table in `tables` carries weights.
pub open spec fn all_weighted<T>(tables: Seq<&Table<T>>) -> bool {
    forall|k: int| 0 <= k < tables.len() ==> (#[trigger] tables[k]).cum_weights is Some
}

/// The sum of the total weights of `tables[k..]`.
pub open spec fn tail_weight<T>(tables: Seq<&Table<T>>, k: int) -> nat
    decreases tables.len() - k,
{
    if k < 0 || k >= tables.len() {
        0
    } else {
        tables[k].total_weight_spec() + tail_weight(tables, k + 1)
    }
}

/// The number of items in `tables[k..]`.
pub open spec fn tail_len<T>(tables: Seq<&Table<T>>, k: int) -> nat
    decreases tables.len() - k,
{
    if k < 0 || k >= tables.len() {
        0
    } else {
        (tables[k].items.len() + tail_len(tables, k + 1)) as nat
    }
}

proof fn lemma_tail_weight_bound<T>(tables: Seq<&Table<T>>, k: int)
    requires
        0 <= k <= tables.len(),
    ensures
        tail_weight(tables, k) <= (tables.len() - k) * 0x1_0000_0000_0000_0000,
    decreases tables.len() - k,
{
    if k < tables.len() {
        lemma_tail_weight_bound(tables, k + 1);
        let t = tables[k];
        match t.cum_weights {
            Some(c) => {
                if c.len() > 0 {
                    assert(c@[c.len() - 1] < 0x1_0000_0000_0000_0000);
                }
            },
            None => {},
        }
    }
}

proof fn lemma_tail_len_bound<T>(tables: Seq<&Table<T>>, k: int)
    requires
        0 <= k <= tables.len(),
    ensures
        tail_len(tables, k) <= (tables.len() - k) * 0x1_0000_0000_0000_0000,
    decreases tables.len() - k,
{
    if k < tables.len() {
        lemma_tail_len_bound(tables, k + 1);
    }
}

proof fn lemma_tail_weight_positive<T>(tables: Seq<&Table<T>>, k: int)
    requires
        0 <= k < tables.len(),
        forall|j: int| 0 <= j < tables.len() ==> (#[trigger] tables[j]).wf(),
        all_weighted(tables),
    ensures
        tail_weight(tables, k) > 0,
    decreases tables.len() - k,
{
    let t = tables[k];
    assert(t.wf());
    assert(t.cum_weights is Some);
}

/// Where offset `x` into the concatenated weights of `tables[k..]` lands: the table, and
/// `bisect` of what is left of `x` within that table's running totals.
pub open spec fn locate_weighted<T>(tables: Seq<&Table<T>>, k: int, x: int) -> (int, int)
    decreases tables.len() - k,
{
    if k < 0 || k >= tables.len() {
        (k, 0)
    } else if x < tables[k].total_weight_spec() {
        (
            k,
            match tables[k].cum_weights {
                Some(c) => bisect(c@, x as u64),
                None => 0,
            },
        )
    } else {
        locate_weighted(tables, k + 1, x - tables[k].total_weight_spec())
    }
}

/// Where offset `x` into the concatenated items of `tables[k..]` lands: the table and
/// the item within it.
pub open spec fn locate_item<T>(tables: Seq<&Table<T>>, k: int, x: int) -> (int, int)
    decreases tables.len() - k,
{
    if k < 0 || k >= tables.len() {
        (k, 0)
    } else if x < tables[k].items.len() {
        (k, x)
    } else {
        locate_item(tables, k + 1, x - tables[k].items.len())
    }
}

/// `((table, item), next state)` of a pick over the concatenated `tables` from `state`:
/// one draw below the total weight when weights count, else one draw below the number of
/// items, located in the concatenation.
pub open spec fn concat_draw<T>(tables: Seq<&Table<T>>, state: u128, use_weighting: bool) -> (
    (int, int),
    u128,
) {
    if use_weighting && all_weighted(tables) {
        let (x, next) = pcg_draw_u128(state, (tail_weight(tables, 0) - 1) as u128);
        (locate_weighted(tables, 0, x as int), next)
    } else {
        let (x, next) = pcg_draw_u128(state, (tail_len(tables, 0) - 1) as u128);
        (locate_item(tables, 0, x as int), next)
    }
}

/// Picks from several tables as if they were concatenated (Faker's `add_ordereddicts`).
/// Returns `(table, item)`; weights count only when every table carries them.
pub fn pick_concat<T>(tables: &Vec<&Table<T>>, rng: &mut Rng, use_weighting: bool) -> (r: Option<
    (usize, usize),
>)
    requires
        forall|j: int| 0 <= j < tables.len() ==> (#[trigger] tables@[j]).wf(),
    ensures
        tables.len() > 0 <==> r is Some,
        tables.len() == 0 ==> final(rng).state_view() == old(rng).state_view(),
        r matches Some((t, i)) ==> {
            &&& t < tables.len()
            &&& tables@[t as int].can_pick(
                i as int,
                use_weighting && all_weighted(tables@),
            )
            &&& (t as int, i as int) == concat_draw(tables@, old(rng).state_view(), use_weighting).0
            &&& final(rng).state_view() == concat_draw(tables@, old(rng).state_view(), use_weighting).1
        },
{
    let n = tables.len();
    if n == 0 {
        return None;
    }
    let ghost s0 = rng.state_view();
    let mut weighted = use_weighting;
    let mut k: usize = 0;
    while k < n
        invariant
            n == tables.len(),
            k <= n,
            weighted == (use_weighting && forall|j: int|
                0 <= j < k ==> (#[trigger] tables@[j]).cum_weights is Some),
        decreases n - k,
    {
        weighted = weighted && tables[k].cum_weights.is_some();
        k = k + 1;
    }
    assert(weighted == (use_weighting && all_weighted(tables@)));
    if weighted {
        let mut total: u128 = 0;
        let mut k: usize = n;
        while k > 0
            invariant
                n == tables.len(),
                k <= n,
                total == tail_weight(tables@, k as int),
            decreases k,
        {
            k = k - 1;
            proof {
                lemma_tail_weight_bound(tables@, k as int);
                assert((n - k) * 0x1_0000_0000_0000_0000 <= u128::MAX) by (nonlinear_arith)
                    requires
                        0 <= n - k <= 0xFFFF_FFFF_FFFF_FFFF,
                ;
            }
            total = total + tables[k].total_weight() as u128;
        }
        proof {
            lemma_tail_weight_positive(tables@, 0);
        }
        let mut x = rng.upto_u128(total - 1);
        let ghost x0 = x;
        let ghost s1 = rng.state_view();
        let mut k: usize = 0;
        while k < n
            invariant
                n == tables.len(),
                k <= n,
                x < tail_weight(tables@, k as int),
                forall|j: int| 0 <= j < tables.len() ==> (#[trigger] tables@[j]).wf(),
                all_weighted(tables@),
                locate_weighted(tables@, k as int, x as int) == locate_weighted(tables@, 0, x0 as int),
                rng.state_view() == s1,
                use_weighting,
                s0 == old(rng).state_view(),
                (x0, s1) == pcg_draw_u128(s0, (tail_weight(tables@, 0) - 1) as u128),
            decreases n - k,
        {
            let table = tables[k];
            let weight = table.total_weight();
            assert(table.cum_weights is Some);
            if x < weight as u128 {
                match &table.cum_weights {
                    Some(cum) => {
                        let i = weighted_index(cum, x as u64);
                        proof {
                            lemma_weighted_index_positive(cum@, x as u64, i as int);
                            lemma_bisect_at(cum@, x as u64, i as int, 0);
                            assert(locate_weighted(tables@, k as int, x as int) == (k as int, i as int));
                            assert(concat_draw(tables@, old(rng).state_view(), use_weighting) == (
                                (k as int, i as int),
                                s1,
                            ));
                        }
                        return Some((k, i));
                    },
                    None => {},
                }
            }
            x = x - weight as u128;
            k = k + 1;
        }
        return None;
    }
    let mut total: u128 = 0;
    let mut k: usize = n;
    while k > 0
        invariant
            n == tables.len(),
            k <= n,
            total == tail_len(tables@, k as int),
        decreases k,
    {
        k = k - 1;
        proof {
            lemma_tail_len_bound(tables@, k as int);
            assert((n - k) * 0x1_0000_0000_0000_0000 <= u128::MAX) by (nonlinear_arith)
                requires
                    0 <= n - k <= 0xFFFF_FFFF_FFFF_FFFF,
            ;
        }
        total = total + tables[k].len() as u128;
    }
    assert(tables@[0].wf());
    let mut index = rng.upto_u128(total - 1);
    let ghost x0 = index;
    let ghost s1 = rng.state_view();
    let mut k: usize = 0;
    while k < n
        invariant
            n == tables.len(),
            k <= n,
            index < tail_len(tables@, k as int),
            !(use_weighting && all_weighted(tables@)),
            locate_item(tables@, k as int, index as int) == locate_item(tables@, 0, x0 as int),
            rng.state_view() == s1,
            s0 == old(rng).state_view(),
            (x0, s1) == pcg_draw_u128(s0, (tail_len(tables@, 0) - 1) as u128),
        decreases n - k,
    {
        let len = tables[k].len();
        if index < len as u128 {
            assert(tables@[k as int].can_pick(index as int, false));
            assert(locate_item(tables@, k as int, index as int) == (k as int, index as int));
            assert(concat_draw(tables@, old(rng).state_view(), use_weighting) == (
                (k as int, index as int),
                s1,
            ));
            return Some((k, index as usize));
        }
        index = index - len as u128;
        k = k + 1;
    }
    None
}

/// A country record from Faker's `date_time` provider.
#[derive(Debug, Clone)]
pub struct Country {
    pub name: String,
    pub alpha_2_code: String,
    pub alpha_3_code: String,
    pub continent: String,
    pub capital: String,
    pub timezones: Vec<String>,
}

} // verus!
