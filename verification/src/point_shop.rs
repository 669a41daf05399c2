//! The redemption shop: items purchasable with points, purchase records,
//! and per-month redemption statistics.

use vstd::prelude::*;
use vstd::string::StringExecFns;
use crate::ids::{fresh_uuid, now_unix_timestamp};
use crate::textfmt::spec_digit;

verus! {

/// What a shop item unlocks.
#[derive(Debug, Clone, Copy, PartialEq, Eq, Structural)]
pub enum ShopItemType {
    AIDecoration,
    UserTitle,
    LIOAccessTicket,
    AISlotExpansion,
    ExclusiveStory,
}

/// Broad category of a shop item.
#[derive(Debug, Clone, Copy, PartialEq, Eq, Structural)]
pub enum ShopItemCategory {
    Coupon,
    Decoration,
    Function,
}

/// An item offered in the redemption shop.
#[derive(Debug, Clone)]
pub struct ShopItem {
    pub id: String,
    pub name: String,
    pub description: String,
    pub item_type: ShopItemType,
    pub category: ShopItemCategory,
    pub price_hp: u32,
    pub image_url: Option<String>,
    pub is_limited: bool,
    pub available_until: Option<i64>,
    pub created_at: i64,
    pub stock: Option<u32>,
    pub visible: bool,
    pub linked_coupon_id: Option<String>,
    pub monthly_limit: Option<u32>,
    pub vip_discount: Option<bool>,
}

/// Whether an item can be redeemed at time `now`: it must be visible, a
/// limited item must not be past its deadline, and the stock must not be
/// exhausted.
pub open spec fn spec_is_available_at(item: ShopItem, now: i64) -> bool {
    &&& item.visible
    &&& !(item.is_limited && (item.available_until matches Some(t) && t <= now))
    &&& item.stock != Some(0u32)
}

impl ShopItem {
    /// Builds a fresh item from its fields.
    pub fn new(
        name: String,
        description: String,
        item_type: ShopItemType,
        category: ShopItemCategory,
        price_hp: u32,
        image_url: Option<String>,
        is_limited: bool,
        available_until: Option<i64>,
        stock: Option<u32>,
        visible: bool,
        linked_coupon_id: Option<String>,
        monthly_limit: Option<u32>,
        vip_discount: Option<bool>,
    ) -> (r: ShopItem)
        ensures
            r.name == name,
            r.description == description,
            r.item_type == item_type,
            r.category == category,
            r.price_hp == price_hp,
            r.image_url == image_url,
            r.is_limited == is_limited,
            r.available_until == available_until,
            r.stock == stock,
            r.visible == visible,
            r.linked_coupon_id == linked_coupon_id,
            r.monthly_limit == monthly_limit,
            r.vip_discount == vip_discount,
            r.id@.len() == 36,
    {
        ShopItem {
            id: fresh_uuid(),
            name,
            description,
            item_type,
            category,
            price_hp,
            image_url,
            is_limited,
            available_until,
            created_at: now_unix_timestamp(),
            stock,
            visible,
            linked_coupon_id,
            monthly_limit,
            vip_discount,
        }
    }

    /// Whether the item can be redeemed at time `now`.
    pub fn is_available_at(&self, now: i64) -> (r: bool)
        ensures
            r == spec_is_available_at(*self, now),
    {
        if !self.visible {
            return false;
        }
        if self.is_limited {
            if let Some(end_time) = self.available_until {
                if end_time <= now {
                    return false;
                }
            }
        }
        if let Some(stock) = self.stock {
            if stock == 0 {
                return false;
            }
        }
        true
    }

    /// Whether the item can be redeemed right now, against the wall clock.
    /// The clock's value cannot be pinned down, so only the time-independent
    /// part of availability is stated; `is_available_at` carries the exact
    /// contract.
    pub fn is_available(&self) -> (r: bool)
        ensures
            r ==> self.visible && self.stock != Some(0u32),
            (self.visible && self.stock != Some(0u32) && !(self.is_limited
                && self.available_until is Some)) ==> r,
    {
        let now = now_unix_timestamp();
        self.is_available_at(now)
    }
}

/// One redemption of a shop item by a user.
#[derive(Debug, Clone)]
pub struct PurchaseRecord {
    pub id: String,
    pub user_id: String,
    pub item_id: String,
    pub price_paid: u32,
    pub purchased_at: i64,
    pub is_activated: bool,
    pub activated_at: Option<i64>,
    pub expires_at: Option<i64>,
    pub remark: Option<String>,
}

impl PurchaseRecord {
    /// A fresh, not yet activated purchase record.
    pub fn new(
        user_id: String,
        item_id: String,
        price_paid: u32,
        expires_at: Option<i64>,
        remark: Option<String>,
    ) -> (r: PurchaseRecord)
        ensures
            r.user_id == user_id,
            r.item_id == item_id,
            r.price_paid == price_paid,
            r.is_activated == false,
            r.activated_at is None,
            r.expires_at == expires_at,
            r.remark == remark,
            r.id@.len() == 36,
    {
        PurchaseRecord {
            id: fresh_uuid(),
            user_id,
            item_id,
            price_paid,
            purchased_at: now_unix_timestamp(),
            is_activated: false,
            activated_at: None,
            expires_at,
            remark,
        }
    }

    /// Activates the purchase at time `now`: refused if it was already
    /// activated or has expired, marked activated otherwise.
    pub fn activate_at(&mut self, now: i64) -> (r: Result<(), &'static str>)
        ensures
            old(self).is_activated ==> r is Err && *final(self) == *old(self),
            !old(self).is_activated && (old(self).expires_at matches Some(t) && t <= now) ==> r
                is Err && *final(self) == *old(self),
            !old(self).is_activated && !(old(self).expires_at matches Some(t) && t <= now) ==> r
                is Ok && *final(self) == (PurchaseRecord {
                is_activated: true,
                activated_at: Some(now),
                ..*old(self)
            }),
    {
        if self.is_activated {
            return Err("物品已激活");
        }
        if let Some(expire_time) = self.expires_at {
            if expire_time <= now {
                return Err("物品已过期");
            }
        }
        self.is_activated = true;
        self.activated_at = Some(now);
        Ok(())
    }

    /// Activates the purchase against the wall clock. The clock's value
    /// cannot be pinned down, so only its time-independent consequences are
    /// stated; `activate_at` carries the exact contract.
    pub fn activate(&mut self) -> (r: Result<(), &'static str>)
        ensures
            old(self).is_activated ==> r is Err && *final(self) == *old(self),
            r is Ok ==> final(self).is_activated && final(self).activated_at is Some,
            r is Err ==> *final(self) == *old(self),
    {
        let now = now_unix_timestamp();
        self.activate_at(now)
    }
}

/// First-match lookup of a redemption count by item-type key.
pub open spec fn spec_count_lookup(s: Seq<(String, u32)>, k: Seq<char>) -> Option<u32>
    decreases s.len(),
{
    if s.len() == 0 {
        None
    } else if s[0].0@ == k {
        Some(s[0].1)
    } else {
        spec_count_lookup(s.drop_first(), k)
    }
}

/// A lookup skips any prefix that does not hold the key.
proof fn lemma_lookup_skip(s: Seq<(String, u32)>, k: Seq<char>, i: int)
    requires
        0 <= i <= s.len(),
        forall|j: int| 0 <= j < i ==> s[j].0@ != k,
    ensures
        spec_count_lookup(s, k) == spec_count_lookup(s.skip(i), k),
    decreases i,
{
    if i > 0 {
        assert(s.drop_first() =~= s.skip(1));
        lemma_lookup_skip(s.drop_first(), k, i - 1);
        assert(s.drop_first().skip(i - 1) =~= s.skip(i));
    } else {
        assert(s.skip(0) =~= s);
    }
}

/// Overwriting the first entry for a key with a new count changes that
/// key's lookup to the new count and no other key's.
proof fn lemma_lookup_update(s: Seq<(String, u32)>, i: int, v: u32)
    requires
        0 <= i < s.len(),
        forall|j: int| 0 <= j < i ==> s[j].0@ != s[i].0@,
    ensures
        spec_count_lookup(s.update(i, (s[i].0, v)), s[i].0@) == Some(v),
        forall|k2: Seq<char>|
            k2 != s[i].0@ ==> spec_count_lookup(s.update(i, (s[i].0, v)), k2)
                == spec_count_lookup(s, k2),
    decreases i,
{
    let s2 = s.update(i, (s[i].0, v));
    let key = s[i].0@;
    if i == 0 {
        assert(s2[0] == (s[i].0, v));
        assert(spec_count_lookup(s2, key) == Some(v));
        assert forall|k2: Seq<char>| k2 != key implies spec_count_lookup(s2, k2)
            == spec_count_lookup(s, k2) by {
            assert(s2[0].0@ == key);
            assert(s2.drop_first() =~= s.drop_first());
            assert(spec_count_lookup(s2, k2) == spec_count_lookup(s2.drop_first(), k2));
            assert(spec_count_lookup(s, k2) == spec_count_lookup(s.drop_first(), k2));
        }
    } else {
        assert(s2[0] == s[0]);
        assert(s[0].0@ != key);
        assert(s2.drop_first() =~= s.drop_first().update(i - 1, (s.drop_first()[i - 1].0, v)));
        lemma_lookup_update(s.drop_first(), i - 1, v);
        assert(spec_count_lookup(s2, key) == Some(v));
        assert forall|k2: Seq<char>| k2 != key implies spec_count_lookup(s2, k2)
            == spec_count_lookup(s, k2) by {
            if s[0].0@ != k2 {
                assert(spec_count_lookup(s2, k2) == spec_count_lookup(s2.drop_first(), k2));
                assert(spec_count_lookup(
                    s.drop_first().update(i - 1, (s.drop_first()[i - 1].0, v)),
                    k2,
                ) == spec_count_lookup(s.drop_first(), k2));
                assert(spec_count_lookup(s, k2) == spec_count_lookup(s.drop_first(), k2));
            }
        }
    }
}

/// Appending an entry leaves every present key's lookup alone and gives an
/// absent key the appended count.
proof fn lemma_lookup_push(s: Seq<(String, u32)>, e: (String, u32), k: Seq<char>)
    ensures
        spec_count_lookup(s.push(e), k) == match spec_count_lookup(s, k) {
            Some(c) => Some(c),
            None => if e.0@ == k {
                Some(e.1)
            } else {
                None::<u32>
            },
        },
    decreases s.len(),
{
    if s.len() == 0 {
        assert(s.push(e)[0] == e);
        assert(spec_count_lookup(s, k) == None::<u32>);
        if e.0@ != k {
            assert(s.push(e).drop_first() =~= Seq::<(String, u32)>::empty());
            assert(spec_count_lookup(s.push(e).drop_first(), k) == None::<u32>);
        }
    } else {
        assert(s.push(e)[0] == s[0]);
        assert(s.push(e).drop_first() =~= s.drop_first().push(e));
        lemma_lookup_push(s.drop_first(), e, k);
        if s[0].0@ != k {
            assert(spec_count_lookup(s.push(e), k) == spec_count_lookup(
                s.drop_first().push(e),
                k,
            ));
            assert(spec_count_lookup(s, k) == spec_count_lookup(s.drop_first(), k));
        }
    }
}

/// How many redemptions of each item type a user has made in one month.
#[derive(Debug, Clone)]
pub struct MonthlyRedemptionStat {
    pub id: String,
    pub user_id: String,
    pub year_month: String,
    pub item_type_counts: Vec<(String, u32)>,
    pub total_points_spent: u32,
    pub updated_at: i64,
}

/// The key under which one month's statistics are stored:
/// `"{user}:{year}-{month}"`, the month two digits.
pub open spec fn spec_year_month(y: int, m: int) -> Seq<char> {
    crate::textfmt::spec_dec_int(y) + seq!['-'] + (if m < 10 {
        seq!['0', spec_digit(m)]
    } else {
        seq![spec_digit(m / 10), spec_digit(m % 10)]
    })
}

/// Relies on `time::OffsetDateTime::now_utc`, read through `Date::year` and
/// `Date::month`: the current calendar year and month, the month between 1
/// and 12.
#[verifier::external_body]
fn now_utc_year_month() -> (r: (i32, u8))
    ensures
        1 <= r.1 <= 12,
{
    let now = time::OffsetDateTime::now_utc();
    (now.year(), now.month() as u8)
}

impl MonthlyRedemptionStat {
    /// A fresh, empty statistics record for the current month, keyed by user
    /// and month.
    pub fn new(user_id: String) -> (r: MonthlyRedemptionStat)
        ensures
            r.user_id == user_id,
            r.item_type_counts@.len() == 0,
            r.total_points_spent == 0,
            r.id@ == user_id@ + ":"@ + r.year_month@,
            exists|y: int, m: int|
                1 <= m <= 12 && r.year_month@ == #[trigger] spec_year_month(y, m),
    {
        let (y, m) = now_utc_year_month();
        let mut year_month = String::new();
        crate::textfmt::push_dec_i64(&mut year_month, y as i64);
        crate::textfmt::push_char(&mut year_month, '-');
        if m < 10 {
            crate::textfmt::push_char(&mut year_month, '0');
            year_month.push(crate::textfmt::digit_char(m as u64));
        } else {
            year_month.push(crate::textfmt::digit_char((m / 10) as u64));
            year_month.push(crate::textfmt::digit_char((m % 10) as u64));
        }
        proof {
            assert(year_month@ =~= spec_year_month(y as int, m as int));
        }
        let mut id = user_id.clone();
        crate::textfmt::push_char(&mut id, ':');
        id.append(year_month.as_str());
        proof {
            reveal_strlit(":");
            assert(id@ =~= user_id@ + ":"@ + year_month@);
        }
        MonthlyRedemptionStat {
            id,
            user_id,
            year_month,
            item_type_counts: Vec::new(),
            total_points_spent: 0,
            updated_at: now_unix_timestamp(),
        }
    }

    /// Records one redemption: the count for `item_type` rises by one (from
    /// zero if the type is new), no other type's count moves, and the points
    /// spent are added to the month's total.
    pub fn record_redemption(&mut self, item_type: &str, points_spent: u32)
        requires
            old(self).total_points_spent + points_spent <= u32::MAX,
            match spec_count_lookup(old(self).item_type_counts@, item_type@) {
                Some(c) => c < u32::MAX,
                None => true,
            },
        ensures
            spec_count_lookup(final(self).item_type_counts@, item_type@) == Some(
                match spec_count_lookup(old(self).item_type_counts@, item_type@) {
                    Some(c) => (c + 1) as u32,
                    None => 1u32,
                },
            ),
            forall|k2: Seq<char>|
                k2 != item_type@ ==> spec_count_lookup(final(self).item_type_counts@, k2)
                    == spec_count_lookup(old(self).item_type_counts@, k2),
            final(self).total_points_spent == old(self).total_points_spent + points_spent,
            final(self).id == old(self).id,
            final(self).user_id == old(self).user_id,
            final(self).year_month == old(self).year_month,
    {
        let ghost s0 = self.item_type_counts@;
        let key = item_type.to_owned();
        let n = self.item_type_counts.len();
        let mut i: usize = 0;
        let mut hit = n;
        while i < n && hit == n
            invariant
                i <= n,
                hit == n || hit == i,
                n == self.item_type_counts@.len(),
                key@ == item_type@,
                forall|j: int| 0 <= j < i ==> self.item_type_counts@[j].0@ != item_type@,
                hit < n ==> self.item_type_counts@[hit as int].0@ == item_type@,
            decreases n - i + (if hit == n {
                1int
            } else {
                0int
            }),
        {
            if self.item_type_counts[i].0 == key {
                hit = i;
            } else {
                i = i + 1;
            }
        }
        if hit < n {
            proof {
                lemma_lookup_skip(s0, item_type@, hit as int);
                assert(s0.skip(hit as int)[0] == s0[hit as int]);
            }
            let e = self.item_type_counts.remove(hit);
            let count = e.1;
            self.item_type_counts.insert(hit, (e.0, count + 1));
            proof {
                assert(self.item_type_counts@ =~= s0.update(
                    hit as int,
                    (s0[hit as int].0, (count + 1) as u32),
                ));
                lemma_lookup_update(s0, hit as int, (count + 1) as u32);
            }
        } else {
            let ghost ek = key;
            self.item_type_counts.push((key, 1));
            proof {
                lemma_lookup_skip(s0, item_type@, n as int);
                assert(self.item_type_counts@ =~= s0.push((ek, 1u32)));
                lemma_lookup_push(s0, (ek, 1u32), item_type@);
                assert forall|k2: Seq<char>| k2 != item_type@ implies spec_count_lookup(
                    self.item_type_counts@,
                    k2,
                ) == spec_count_lookup(s0, k2) by {
                    lemma_lookup_push(s0, (ek, 1u32), k2);
                }
            }
        }
        self.total_points_spent = self.total_points_spent + points_spent;
        self.updated_at = now_unix_timestamp();
    }

    /// Whether another redemption of `item_type` stays within `limit`: true
    /// when fewer than `limit` redemptions are recorded (or none at all).
    pub fn check_monthly_limit(&self, item_type: &str, limit: u32) -> (r: bool)
        ensures
            r == match spec_count_lookup(self.item_type_counts@, item_type@) {
                Some(c) => c < limit,
                None => true,
            },
    {
        let key = item_type.to_owned();
        let n = self.item_type_counts.len();
        let mut i: usize = 0;
        while i < n
            invariant
                i <= n,
                n == self.item_type_counts@.len(),
                key@ == item_type@,
                forall|j: int| 0 <= j < i ==> self.item_type_counts@[j].0@ != item_type@,
            decreases n - i,
        {
            if self.item_type_counts[i].0 == key {
                proof {
                    lemma_lookup_skip(self.item_type_counts@, item_type@, i as int);
                    assert(self.item_type_counts@.skip(i as int)[0]
                        == self.item_type_counts@[i as int]);
                }
                return self.item_type_counts[i].1 < limit;
            }
            i = i + 1;
        }
        proof {
            lemma_lookup_skip(self.item_type_counts@, item_type@, n as int);
        }
        true
    }
}

} // verus!
