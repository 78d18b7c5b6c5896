//! Currencies and the exchange-rate table.
//!
//! A [`Currency`] is a code plus a display name; two currencies are the
//! same exactly when their codes are equal. A [`CurrencyConverter`] maps
//! currency codes to exchange rates relative to one common, unnamed base
//! and converts amounts by dividing by the source rate and multiplying by
//! the target rate.

use vstd::prelude::*;

verus! {

use crate::decimal::{Dec, checked_div_val, checked_mul_val};
use crate::error::{ConvFailure, CurrencyConverterError, conv_err_matches};

/// A monetary unit: a code such as `"USD"` and a human-readable name.
/// Equality is by code alone; the name is descriptive metadata.
#[derive(Debug)]
pub struct Currency {
    code: String,
    name: String,
}

impl Currency {
    /// The currency code, as a character sequence.
    pub closed spec fn spec_code(self) -> Seq<char> {
        self.code@
    }

    /// The currency name, as a character sequence.
    pub closed spec fn spec_name(self) -> Seq<char> {
        self.name@
    }

    /// Builds a currency from its code and name.
    pub fn new(code: &str, name: &str) -> (r: Currency)
        ensures
            r.spec_code() == code@,
            r.spec_name() == name@,
    {
        Currency { code: code.to_owned(), name: name.to_owned() }
    }

    /// The code of the currency (e.g. `"USD"`).
    pub fn get_code(&self) -> (r: &str)
        ensures
            r@ == self.spec_code(),
    {
        self.code.as_str()
    }

    /// The name of the currency (e.g. `"US Dollar"`).
    pub fn get_name(&self) -> (r: &str)
        ensures
            r@ == self.spec_name(),
    {
        self.name.as_str()
    }
}

impl Clone for Currency {
    fn clone(&self) -> (r: Currency)
        ensures
            r == *self,
    {
        Currency { code: self.code.clone(), name: self.name.clone() }
    }
}

impl PartialEq for Currency {
    fn eq(&self, other: &Currency) -> (r: bool) {
        self.code == other.code
    }
}

impl vstd::std_specs::cmp::PartialEqSpecImpl for Currency {
    open spec fn obeys_eq_spec() -> bool {
        true
    }

    open spec fn eq_spec(&self, other: &Currency) -> bool {
        self.spec_code() == other.spec_code()
    }
}

impl Eq for Currency {

}

/// One row of the rate table: a currency code and its rate against the
/// common base.
struct RateEntry {
    code: String,
    rate: Dec,
}

/// The first rate stored under `code`, scanning from the front. The
/// converter keeps codes unique, so the first match is the only one.
spec fn find_rate(entries: Seq<RateEntry>, code: Seq<char>) -> Option<Dec>
    decreases entries.len(),
{
    if entries.len() == 0 {
        None
    } else if entries[0].code@ == code {
        Some(entries[0].rate)
    } else {
        find_rate(entries.drop_first(), code)
    }
}

/// A table of exchange rates, keyed by currency code, all relative to one
/// common base.
pub struct CurrencyConverter {
    rates: Vec<RateEntry>,
}

impl CurrencyConverter {
    /// The rate stored under `code`, as a scaled decimal value, or `None`
    /// when no rate is stored.
    pub closed spec fn spec_rate(&self, code: Seq<char>) -> Option<int> {
        match find_rate(self.rates@, code) {
            Some(d) => Some(d.val()),
            None => None,
        }
    }

    /// Every stored rate is a well-formed decimal and every code appears
    /// at most once.
    pub closed spec fn wf(&self) -> bool {
        (forall|i: int|
            0 <= i < self.rates@.len() ==> (#[trigger] self.rates@[i]).rate.wf()) && (forall|
            i: int,
            j: int,
        |
            #![trigger self.rates@[i], self.rates@[j]]
            0 <= i < j < self.rates@.len() ==> self.rates@[i].code@ != self.rates@[j].code@)
    }

    /// Whether the rate stored under `code`, if any, is nonnegative.
    pub open spec fn rate_nonneg(&self, code: Seq<char>) -> bool {
        match self.spec_rate(code) {
            Some(v) => v >= 0,
            None => true,
        }
    }

    /// What a conversion of the scaled amount `a` from the currency coded
    /// `from` to the one coded `to` yields: the amount itself when the
    /// codes are equal, otherwise `(a / from_rate) * to_rate` under
    /// `rust_decimal`'s arithmetic, or the failure that stops it.
    pub open spec fn spec_convert(&self, a: int, from: Seq<char>, to: Seq<char>) -> Result<
        int,
        ConvFailure,
    > {
        if from == to {
            Ok(a)
        } else {
            match self.spec_rate(from) {
                None => Err(ConvFailure::Missing(from)),
                Some(fr) => match self.spec_rate(to) {
                    None => Err(ConvFailure::Missing(to)),
                    Some(tr) => if fr == 0 {
                        Err(ConvFailure::ZeroRate)
                    } else {
                        match checked_div_val(a, fr) {
                            None => Err(ConvFailure::Overflow),
                            Some(q) => match checked_mul_val(q, tr) {
                                None => Err(ConvFailure::Overflow),
                                Some(v) => Ok(v),
                            },
                        }
                    },
                },
            }
        }
    }

    /// Builds a converter with no exchange rates set.
    pub fn new() -> (r: CurrencyConverter)
        ensures
            r.wf(),
            forall|c: Seq<char>| #[trigger] r.spec_rate(c) is None,
    {
        CurrencyConverter { rates: Vec::new() }
    }

    /// Inserts the rate for `currency`'s code, overwriting any rate
    /// already stored under it. The rate itself is not validated: a zero
    /// rate is accepted here and only rejected when used as a divisor.
    #[verifier::loop_isolation(false)]
    pub fn add_exchange_rate(&mut self, currency: &Currency, rate: Dec)
        requires
            old(self).wf(),
            rate.wf(),
        ensures
            final(self).wf(),
            forall|c: Seq<char>|
                #[trigger] final(self).spec_rate(c) == if c == currency.spec_code() {
                    Some(rate.val())
                } else {
                    old(self).spec_rate(c)
                },
    {
        let ghost s0 = self.rates@;
        let n = self.rates.len();
        let mut i: usize = 0;
        while i < n
            invariant
                self.rates@ == s0,
                n == s0.len(),
                i <= n,
                forall|k: int| 0 <= k < i ==> (#[trigger] s0[k]).code@ != currency.spec_code(),
            decreases n - i,
        {
            if self.rates[i].code == currency.code {
                proof {
                    assert(s0[i as int].code@ == currency.spec_code());
                }
                self.rates[i].rate = rate;
                proof {
                    let s1 = self.rates@;
                    let e = s1[i as int];
                    assert(s1 == s0.update(i as int, e));
                    assert(e.code@ == currency.spec_code());
                    assert(e.rate == rate);
                    assert forall|k: int, l: int|
                        #![trigger s0[k], s0[l]]
                        0 <= k < l < s0.len() implies s0[k].code@ != s0[l].code@ by {
                        assert(old(self).wf());
                    }
                    assert forall|k: int| 0 <= k < s1.len() implies (#[trigger] s1[k]).rate.wf()
                        by {
                        if k != i {
                            assert(s1[k] == s0[k]);
                        }
                    }
                    assert forall|k: int, l: int|
                        #![trigger s1[k], s1[l]]
                        0 <= k < l < s1.len() implies s1[k].code@ != s1[l].code@ by {
                        if k != i {
                            assert(s1[k] == s0[k]);
                        }
                        if l != i {
                            assert(s1[l] == s0[l]);
                        }
                        assert(e.code@ == s0[i as int].code@);
                    }
                    assert forall|c: Seq<char>|
                        #[trigger] self.spec_rate(c) == if c == currency.spec_code() {
                            Some(rate.val())
                        } else {
                            old(self).spec_rate(c)
                        } by {
                        lemma_find_rate_update(s0, i as int, e, c);
                    }
                }
                return ;
            }
            i += 1;
        }
        let entry = RateEntry { code: currency.code.clone(), rate };
        self.rates.push(entry);
        proof {
            let s1 = self.rates@;
            assert(s1 == s0.push(s1.last()));
            assert forall|c: Seq<char>|
                #[trigger] self.spec_rate(c) == if c == currency.spec_code() {
                    Some(rate.val())
                } else {
                    old(self).spec_rate(c)
                } by {
                lemma_find_rate_push(s0, s1.last(), c);
            }
        }
    }

    /// Looks up the exchange rate stored for `currency`'s code.
    pub fn get_exchange_rate(&self, currency: &Currency) -> (r: Option<Dec>)
        requires
            self.wf(),
        ensures
            (match r {
                Some(d) => d.wf() && self.spec_rate(currency.spec_code()) == Some(d.val()),
                None => self.spec_rate(currency.spec_code()) is None,
            }),
    {
        let n = self.rates.len();
        let mut i: usize = 0;
        while i < n
            invariant
                self.wf(),
                n == self.rates@.len(),
                i <= n,
                forall|k: int|
                    0 <= k < i ==> (#[trigger] self.rates@[k]).code@ != currency.spec_code(),
            decreases n - i,
        {
            if self.rates[i].code == currency.code {
                proof {
                    lemma_find_rate_found(self.rates@, currency.spec_code(), i as int);
                }
                return Some(self.rates[i].rate);
            }
            i += 1;
        }
        proof {
            lemma_find_rate_absent(self.rates@, currency.spec_code());
        }
        None
    }

    /// Converts `amount` from `from` to `to`.
    ///
    /// Equal codes return the amount unchanged, whatever the rate table
    /// holds. Otherwise the first missing rate is reported (`from`
    /// checked first), a zero source rate is `DivisionByZero` even for a
    /// zero amount, and the result is `(amount / from_rate) * to_rate`.
    pub fn convert(&self, amount: Dec, from: &Currency, to: &Currency) -> (r: Result<
        Dec,
        CurrencyConverterError,
    >)
        requires
            self.wf(),
            amount.wf(),
        ensures
            from.spec_code() == to.spec_code() ==> r == Ok::<Dec, CurrencyConverterError>(
                amount,
            ),
            (match r {
                Ok(d) => d.wf() && self.spec_convert(
                    amount.val(),
                    from.spec_code(),
                    to.spec_code(),
                ) == Ok::<int, ConvFailure>(d.val()),
                Err(e) => (match self.spec_convert(
                    amount.val(),
                    from.spec_code(),
                    to.spec_code(),
                ) {
                    Ok(v) => false,
                    Err(f) => conv_err_matches(e, f),
                }),
            }),
            amount.val() >= 0 && self.rate_nonneg(from.spec_code()) && self.rate_nonneg(
                to.spec_code(),
            ) ==> (match r {
                Ok(d) => d.val() >= 0,
                Err(_) => true,
            }),
    {
        if from == to {
            return Ok(amount);
        }
        let from_rate = match self.get_exchange_rate(from) {
            Some(d) => d,
            None => {
                return Err(CurrencyConverterError::RateNotFound(from.get_code().to_owned()));
            },
        };
        let to_rate = match self.get_exchange_rate(to) {
            Some(d) => d,
            None => {
                return Err(CurrencyConverterError::RateNotFound(to.get_code().to_owned()));
            },
        };
        if from_rate.is_zero() {
            return Err(CurrencyConverterError::DivisionByZero);
        }
        let q = match amount.checked_div(&from_rate) {
            Some(q) => q,
            None => {
                return Err(CurrencyConverterError::Overflow);
            },
        };
        match q.checked_mul(&to_rate) {
            Some(v) => Ok(v),
            None => Err(CurrencyConverterError::Overflow),
        }
    }
}

/// Updating the entry at `i` with one that carries the same code changes
/// the stored rate for that code and no other, provided codes are unique.
proof fn lemma_find_rate_update(s: Seq<RateEntry>, i: int, e: RateEntry, c: Seq<char>)
    requires
        0 <= i < s.len(),
        s[i].code@ == e.code@,
        forall|k: int, l: int|
            #![trigger s[k], s[l]]
            0 <= k < l < s.len() ==> s[k].code@ != s[l].code@,
    ensures
        find_rate(s.update(i, e), c) == (if c == e.code@ {
            Some(e.rate)
        } else {
            find_rate(s, c)
        }),
    decreases s.len(),
{
    let t = s.update(i, e);
    assert(t[0] == if i == 0 {
        e
    } else {
        s[0]
    });
    if i == 0 {
        if c != e.code@ {
            assert(t.drop_first() =~= s.drop_first());
        }
    } else {
        assert(s[0].code@ != s[i].code@);
        assert(t.drop_first() =~= s.drop_first().update(i - 1, e));
        assert(s.drop_first()[i - 1] == s[i]);
        assert forall|k: int, l: int|
            #![trigger s.drop_first()[k], s.drop_first()[l]]
            0 <= k < l < s.drop_first().len() implies s.drop_first()[k].code@
            != s.drop_first()[l].code@ by {
            assert(s.drop_first()[k] == s[k + 1]);
            assert(s.drop_first()[l] == s[l + 1]);
        }
        lemma_find_rate_update(s.drop_first(), i - 1, e, c);
    }
}

/// Appending an entry whose code is new changes the stored rate for that
/// code and no other.
proof fn lemma_find_rate_push(s: Seq<RateEntry>, e: RateEntry, c: Seq<char>)
    requires
        forall|k: int| 0 <= k < s.len() ==> (#[trigger] s[k]).code@ != e.code@,
    ensures
        find_rate(s.push(e), c) == (if c == e.code@ {
            Some(e.rate)
        } else {
            find_rate(s, c)
        }),
    decreases s.len(),
{
    let t = s.push(e);
    if s.len() == 0 {
        assert(t[0] == e);
        if c != e.code@ {
            assert(t.drop_first() =~= Seq::<RateEntry>::empty());
            assert(find_rate(Seq::<RateEntry>::empty(), c) is None);
            assert(find_rate(t, c) is None);
        }
    } else {
        assert(t[0] == s[0]);
        assert(t.drop_first() =~= s.drop_first().push(e));
        assert forall|k: int|
            0 <= k < s.drop_first().len() implies (#[trigger] s.drop_first()[k]).code@
            != e.code@ by {
            assert(s.drop_first()[k] == s[k + 1]);
        }
        lemma_find_rate_push(s.drop_first(), e, c);
    }
}

/// A match at `i`, with no earlier match, is what the scan finds.
proof fn lemma_find_rate_found(s: Seq<RateEntry>, c: Seq<char>, i: int)
    requires
        0 <= i < s.len(),
        s[i].code@ == c,
        forall|k: int| 0 <= k < i ==> (#[trigger] s[k]).code@ != c,
    ensures
        find_rate(s, c) == Some(s[i].rate),
    decreases i,
{
    if i > 0 {
        assert(s.drop_first()[i - 1] == s[i]);
        assert forall|k: int|
            0 <= k < i - 1 implies (#[trigger] s.drop_first()[k]).code@ != c by {
            assert(s.drop_first()[k] == s[k + 1]);
        }
        lemma_find_rate_found(s.drop_first(), c, i - 1);
    }
}

/// With no match anywhere the scan finds nothing.
proof fn lemma_find_rate_absent(s: Seq<RateEntry>, c: Seq<char>)
    requires
        forall|k: int| 0 <= k < s.len() ==> (#[trigger] s[k]).code@ != c,
    ensures
        find_rate(s, c) is None,
    decreases s.len(),
{
    if s.len() > 0 {
        assert forall|k: int|
            0 <= k < s.drop_first().len() implies (#[trigger] s.drop_first()[k]).code@ != c by {
            assert(s.drop_first()[k] == s[k + 1]);
        }
        lemma_find_rate_absent(s.drop_first(), c);
    }
}

} // verus!
