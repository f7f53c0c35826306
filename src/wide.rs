//! Unbounded integers as little-endian base-2^32 limbs, with the few
//! operations that exact averaging of rates needs: multiplying by a small
//! factor, adding, comparing and subtracting.
use vstd::prelude::*;
use vstd::arithmetic::div_mod::lemma_fundamental_div_mod;

verus! {

/// The radix of one limb.
pub open spec fn limb_base() -> nat {
    0x1_0000_0000
}

/// `limb_base()` to the power `i`.
pub open spec fn base_pow(i: nat) -> nat
    decreases i,
{
    if i == 0 {
        1
    } else {
        limb_base() * base_pow((i - 1) as nat)
    }
}

/// The number that little-endian limbs stand for.
pub open spec fn limbs_value(s: Seq<u32>) -> nat
    decreases s.len(),
{
    if s.len() == 0 {
        0
    } else {
        limbs_value(s.drop_last()) + s.last() as nat * base_pow((s.len() - 1) as nat)
    }
}

proof fn lemma_base_pow_positive(i: nat)
    ensures
        base_pow(i) >= 1,
    decreases i,
{
    if i > 0 {
        lemma_base_pow_positive((i - 1) as nat);
        assert(limb_base() * base_pow((i - 1) as nat) >= 1) by (nonlinear_arith)
            requires
                base_pow((i - 1) as nat) >= 1,
                limb_base() == 0x1_0000_0000,
        ;
    }
}

/// The single limb 1 stands for 1.
pub proof fn lemma_value_one()
    ensures
        limbs_value(seq![1u32]) == 1,
{
    assert(seq![1u32].drop_last() =~= Seq::<u32>::empty());
    assert(limbs_value(Seq::<u32>::empty()) == 0);
    assert(base_pow(0) == 1);
    assert(seq![1u32].last() == 1);
}

proof fn lemma_value_push(s: Seq<u32>, x: u32)
    ensures
        limbs_value(s.push(x)) == limbs_value(s) + x as nat * base_pow(s.len()),
{
    assert(s.push(x).drop_last() =~= s);
}

proof fn lemma_value_prefix(s: Seq<u32>, i: int)
    requires
        0 <= i < s.len(),
    ensures
        limbs_value(s.subrange(0, i + 1)) == limbs_value(s.subrange(0, i)) + s[i] as nat * base_pow(
            i as nat,
        ),
{
    assert(s.subrange(0, i + 1) =~= s.subrange(0, i).push(s[i]));
    lemma_value_push(s.subrange(0, i), s[i]);
}

proof fn lemma_value_below_pow(s: Seq<u32>)
    ensures
        limbs_value(s) < base_pow(s.len()),
    decreases s.len(),
{
    if s.len() > 0 {
        let n = (s.len() - 1) as nat;
        lemma_value_below_pow(s.drop_last());
        let p = base_pow(n);
        let v = limbs_value(s.drop_last());
        let l = s.last() as nat;
        assert(v + l * p < limb_base() * p) by (nonlinear_arith)
            requires
                v < p,
                l < limb_base(),
        ;
    }
}

/// One step of a limb-wise loop: `t = low + high * B` spread over position `i`.
proof fn lemma_limb_step(acc: int, low: int, high: int, t: int, i: nat)
    requires
        t == low + high * limb_base(),
    ensures
        acc + low * base_pow(i) + high * base_pow(i + 1) == acc + t * base_pow(i),
{
    let p = base_pow(i);
    assert(base_pow(i + 1) == limb_base() * p);
    assert(low * p + high * (limb_base() * p) == (low + high * limb_base()) * p) by (nonlinear_arith);
}

/// `a * m`.
pub fn mul_small(a: &Vec<u32>, m: u128) -> (r: Vec<u32>)
    requires
        m < 0x1_0000_0000_0000_0000_0000,
    ensures
        limbs_value(r@) == limbs_value(a@) * m,
{
    let b: u128 = 0x1_0000_0000;
    let mut r: Vec<u32> = Vec::new();
    let mut carry: u128 = 0;
    let mut i: usize = 0;
    assert(a@.subrange(0, 0) =~= Seq::<u32>::empty());
    assert(limbs_value(Seq::<u32>::empty()) == 0);
    assert(0 * m == 0);
    while i < a.len()
        invariant
            i <= a.len(),
            r@.len() == i,
            carry < 0x1_0000_0000_0000_0000_0000,
            m < 0x1_0000_0000_0000_0000_0000,
            b == limb_base(),
            limbs_value(r@) + carry * base_pow(i as nat) == limbs_value(a@.subrange(0, i as int)) * m,
        decreases a.len() - i,
    {
        let x = a[i];
        assert(x as u128 * m <= 0xffff_ffff * 0x1_0000_0000_0000_0000_0000) by (nonlinear_arith)
            requires
                x <= 0xffff_ffff,
                m < 0x1_0000_0000_0000_0000_0000,
        ;
        let t: u128 = x as u128 * m + carry;
        let low: u128 = t % b;
        let high: u128 = t / b;
        proof {
            lemma_fundamental_div_mod(t as int, b as int);
            lemma_value_prefix(a@, i as int);
            lemma_value_push(r@, low as u32);
            lemma_limb_step(limbs_value(r@) as int, low as int, high as int, t as int, i as nat);
            let pre = limbs_value(a@.subrange(0, i as int));
            let p = base_pow(i as nat);
            assert((pre + x * p) * m == pre * m + (x * m) * p) by (nonlinear_arith);
            assert(carry * p + (x * m) * p == t * p) by (nonlinear_arith)
                requires
                    t == x * m + carry,
            ;
        }
        r.push(low as u32);
        carry = high;
        i = i + 1;
    }
    assert(a@.subrange(0, i as int) =~= a@);
    while carry > 0
        invariant
            b == limb_base(),
            limbs_value(r@) + carry * base_pow(r@.len() as nat) == limbs_value(a@) * m,
        decreases carry,
    {
        let low: u128 = carry % b;
        let high: u128 = carry / b;
        proof {
            lemma_fundamental_div_mod(carry as int, b as int);
            lemma_value_push(r@, low as u32);
            lemma_limb_step(
                limbs_value(r@) as int,
                low as int,
                high as int,
                carry as int,
                r@.len() as nat,
            );
        }
        r.push(low as u32);
        carry = high;
    }
    r
}

/// `a` followed by zero limbs up to `len` limbs; the value is unchanged.
fn padded(a: &Vec<u32>, len: usize) -> (r: Vec<u32>)
    ensures
        limbs_value(r@) == limbs_value(a@),
        r@.len() == if a@.len() >= len {
            a@.len()
        } else {
            len as nat
        },
{
    let mut r: Vec<u32> = Vec::new();
    let mut i: usize = 0;
    while i < a.len()
        invariant
            i <= a.len(),
            r@ == a@.subrange(0, i as int),
        decreases a.len() - i,
    {
        r.push(a[i]);
        i = i + 1;
        assert(r@ =~= a@.subrange(0, i as int));
    }
    assert(r@ =~= a@);
    while r.len() < len
        invariant
            limbs_value(r@) == limbs_value(a@),
            r@.len() >= a@.len(),
            r@.len() == a@.len() || r@.len() <= len,
        decreases len - r@.len(),
    {
        proof {
            lemma_value_push(r@, 0);
        }
        r.push(0);
    }
    r
}

fn add_same_len(a: &Vec<u32>, b: &Vec<u32>) -> (r: Vec<u32>)
    requires
        a@.len() == b@.len(),
    ensures
        limbs_value(r@) == limbs_value(a@) + limbs_value(b@),
{
    let base: u64 = 0x1_0000_0000;
    let mut r: Vec<u32> = Vec::new();
    let mut carry: u64 = 0;
    let mut i: usize = 0;
    while i < a.len()
        invariant
            i <= a.len(),
            a@.len() == b@.len(),
            r@.len() == i,
            carry <= 1,
            base == limb_base(),
            limbs_value(r@) + carry * base_pow(i as nat) == limbs_value(a@.subrange(0, i as int))
                + limbs_value(b@.subrange(0, i as int)),
        decreases a.len() - i,
    {
        let t: u64 = a[i] as u64 + b[i] as u64 + carry;
        let low: u64 = t % base;
        let high: u64 = t / base;
        proof {
            lemma_fundamental_div_mod(t as int, base as int);
            lemma_value_prefix(a@, i as int);
            lemma_value_prefix(b@, i as int);
            lemma_value_push(r@, low as u32);
            lemma_limb_step(limbs_value(r@) as int, low as int, high as int, t as int, i as nat);
            let p = base_pow(i as nat);
            assert(t * p == a[i as int] * p + b[i as int] * p + carry * p) by (nonlinear_arith)
                requires
                    t == a[i as int] + b[i as int] + carry,
            ;
        }
        r.push(low as u32);
        carry = high;
        i = i + 1;
    }
    assert(a@.subrange(0, i as int) =~= a@);
    assert(b@.subrange(0, i as int) =~= b@);
    if carry > 0 {
        proof {
            lemma_value_push(r@, 1);
        }
        r.push(1);
    }
    r
}

/// `a + b`.
pub fn add_wide(a: &Vec<u32>, b: &Vec<u32>) -> (r: Vec<u32>)
    ensures
        limbs_value(r@) == limbs_value(a@) + limbs_value(b@),
{
    let len = if a.len() >= b.len() {
        a.len()
    } else {
        b.len()
    };
    let pa = padded(a, len);
    let pb = padded(b, len);
    add_same_len(&pa, &pb)
}

/// `a − b` limb by limb, with the borrow out of the top limb.
fn sub_same_len(a: &Vec<u32>, b: &Vec<u32>) -> (r: (Vec<u32>, bool))
    requires
        a@.len() == b@.len(),
    ensures
        r.0@.len() == a@.len(),
        limbs_value(r.0@) - (if r.1 {
            base_pow(a@.len() as nat)
        } else {
            0
        }) == limbs_value(a@) - limbs_value(b@),
{
    let base: i64 = 0x1_0000_0000;
    let mut r: Vec<u32> = Vec::new();
    let mut borrow: i64 = 0;
    let mut i: usize = 0;
    while i < a.len()
        invariant
            i <= a.len(),
            a@.len() == b@.len(),
            r@.len() == i,
            0 <= borrow <= 1,
            base == limb_base(),
            limbs_value(r@) - borrow * base_pow(i as nat) == limbs_value(a@.subrange(0, i as int))
                - limbs_value(b@.subrange(0, i as int)),
        decreases a.len() - i,
    {
        let t: i64 = a[i] as i64 - b[i] as i64 - borrow;
        let (low, next): (i64, i64) = if t < 0 {
            (t + base, 1)
        } else {
            (t, 0)
        };
        proof {
            lemma_value_prefix(a@, i as int);
            lemma_value_prefix(b@, i as int);
            lemma_value_push(r@, low as u32);
            let p = base_pow(i as nat);
            assert(base_pow(i as nat + 1) == limb_base() * p);
            assert(low * p - next * (limb_base() * p) == t * p) by (nonlinear_arith)
                requires
                    low == t + next * limb_base(),
            ;
            assert(t * p == a[i as int] * p - b[i as int] * p - borrow * p) by (nonlinear_arith)
                requires
                    t == a[i as int] - b[i as int] - borrow,
            ;
        }
        r.push(low as u32);
        borrow = next;
        i = i + 1;
    }
    assert(a@.subrange(0, i as int) =~= a@);
    assert(b@.subrange(0, i as int) =~= b@);
    (r, borrow == 1)
}

/// Whether `a >= b`.
pub fn at_least(a: &Vec<u32>, b: &Vec<u32>) -> (r: bool)
    ensures
        r == (limbs_value(a@) >= limbs_value(b@)),
{
    let len = if a.len() >= b.len() {
        a.len()
    } else {
        b.len()
    };
    let pa = padded(a, len);
    let pb = padded(b, len);
    let (d, borrow) = sub_same_len(&pa, &pb);
    proof {
        lemma_value_below_pow(d@);
    }
    !borrow
}

/// `a − b`, where `a >= b`.
pub fn sub_wide(a: &Vec<u32>, b: &Vec<u32>) -> (r: Vec<u32>)
    requires
        limbs_value(a@) >= limbs_value(b@),
    ensures
        limbs_value(r@) == limbs_value(a@) - limbs_value(b@),
{
    let len = if a.len() >= b.len() {
        a.len()
    } else {
        b.len()
    };
    let pa = padded(a, len);
    let pb = padded(b, len);
    let (d, borrow) = sub_same_len(&pa, &pb);
    proof {
        lemma_value_below_pow(d@);
        lemma_base_pow_positive(len as nat);
    }
    d
}

/// A signed integer of any size: a sign and a magnitude.
pub struct WideInt {
    pub negative: bool,
    pub magnitude: Vec<u32>,
}

impl WideInt {
    /// The integer that `self` stands for.
    pub open spec fn value(&self) -> int {
        if self.negative {
            -limbs_value(self.magnitude@)
        } else {
            limbs_value(self.magnitude@) as int
        }
    }
}

/// `x + y`, whose magnitude is at most the sum of theirs.
pub fn add_signed(x: WideInt, y: WideInt) -> (r: WideInt)
    ensures
        r.value() == x.value() + y.value(),
        limbs_value(r.magnitude@) <= limbs_value(x.magnitude@) + limbs_value(y.magnitude@),
{
    if x.negative == y.negative {
        WideInt { negative: x.negative, magnitude: add_wide(&x.magnitude, &y.magnitude) }
    } else if at_least(&x.magnitude, &y.magnitude) {
        WideInt { negative: x.negative, magnitude: sub_wide(&x.magnitude, &y.magnitude) }
    } else {
        WideInt { negative: y.negative, magnitude: sub_wide(&y.magnitude, &x.magnitude) }
    }
}

} // verus!
