use vstd::prelude::*;

verus! {

/// The number of workgroups of `size` invocations each that covers `n` items:
/// the smallest count whose invocations reach every item.
pub open spec fn ceil_div(n: int, size: int) -> int {
    (n + size - 1) / size
}

/// Workgroups needed to cover `n` items with `size` invocations per workgroup.
pub fn workgroups_for(n: u32, size: u32) -> (r: u32)
    requires
        size > 0,
    ensures
        r == ceil_div(n as int, size as int),
        r as int * size as int >= n as int,
        r == 0 || (r as int - 1) * (size as int) < (n as int),
{
    let q: u32 = n / size;
    let m: u32 = n % size;
    assert(n as int == q as int * size as int + m as int && m < size) by (nonlinear_arith)
        requires
            q == n / size,
            m == n % size,
            size > 0,
    ;
    if m == 0 {
        assert(q == ceil_div(n as int, size as int)) by (nonlinear_arith)
            requires
                n as int == q as int * size as int,
                size > 0,
        ;
        assert(q == 0 || (q as int - 1) * (size as int) < (n as int)) by (nonlinear_arith)
            requires
                n as int == q as int * size as int,
                size > 0,
        ;
        q
    } else {
        assert(q < 0xffff_ffff) by (nonlinear_arith)
            requires
                n as int == q as int * size as int + m as int,
                0 < m < size,
                n <= 0xffff_ffff,
        ;
        assert((q + 1) as int == ceil_div(n as int, size as int)) by (nonlinear_arith)
            requires
                n as int == q as int * size as int + m as int,
                0 < m < size,
        ;
        assert((q as int + 1) * (size as int) >= (n as int) && (q as int) * (size as int) < (n as int))
            by (nonlinear_arith)
            requires
                n as int == q as int * size as int + m as int,
                0 < m < size,
        ;
        q + 1
    }
}

/// A grid of `ceil_div(n, size)` workgroups covers all `n` items, the last
/// workgroup possibly in part, and one workgroup fewer would not.
pub proof fn lemma_grid_covers(n: int, size: int)
    requires
        n >= 0,
        size > 0,
    ensures
        ceil_div(n, size) * size >= n,
        ceil_div(n, size) * size < n + size,
        ceil_div(n, size) == 0 || (ceil_div(n, size) - 1) * size < n,
{
    let q = n / size;
    let m = n % size;
    assert(n == q * size + m && 0 <= m < size) by (nonlinear_arith)
        requires
            q == n / size,
            m == n % size,
            size > 0,
    ;
    if m == 0 {
        assert(ceil_div(n, size) == q) by (nonlinear_arith)
            requires
                n == q * size,
                size > 0,
        ;
        assert(q == 0 || (q - 1) * size < n) by (nonlinear_arith)
            requires
                n == q * size,
                size > 0,
        ;
    } else {
        assert(ceil_div(n, size) == q + 1) by (nonlinear_arith)
            requires
                n == q * size + m,
                0 < m < size,
        ;
        assert((q + 1) * size >= n && (q + 1) * size < n + size && q * size < n)
            by (nonlinear_arith)
            requires
                n == q * size + m,
                0 < m < size,
        ;
    }
}

/// `n` rounded up to the next multiple of `m`.
pub open spec fn round_up(n: int, m: int) -> int {
    ceil_div(n, m) * m
}

/// The least multiple of `m` that is at least `n`.
pub fn next_multiple_of(n: u32, m: u32) -> (r: u32)
    requires
        m > 0,
        n as int + m as int - 1 <= u32::MAX as int,
    ensures
        r == round_up(n as int, m as int),
        r as int % m as int == 0,
        n <= r,
        r < n as int + m as int,
{
    let q: u32 = n / m;
    let rem: u32 = n % m;
    assert(n as int == q as int * m as int + rem as int && rem < m) by (nonlinear_arith)
        requires
            q == n / m,
            rem == n % m,
            m > 0,
    ;
    if rem == 0 {
        assert(q as int * m as int == round_up(n as int, m as int)) by (nonlinear_arith)
            requires
                n as int == q as int * m as int,
                m > 0,
        ;
        assert((q as int * m as int) % m as int == 0) by (nonlinear_arith)
            requires
                m > 0,
        ;
        n
    } else {
        let r: u32 = n - rem + m;
        assert(r as int == (q as int + 1) * m as int) by (nonlinear_arith)
            requires
                n as int == q as int * m as int + rem as int,
                r as int == n as int - rem as int + m as int,
        ;
        assert(r as int == round_up(n as int, m as int)) by (nonlinear_arith)
            requires
                n as int == q as int * m as int + rem as int,
                0 < rem < m,
                r as int == (q as int + 1) * m as int,
        ;
        assert(r as int % m as int == 0) by (nonlinear_arith)
            requires
                r as int == (q as int + 1) * m as int,
                m > 0,
        ;
        r
    }
}

} // verus!
