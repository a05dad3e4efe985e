//! The JSON bodies the service sends, as exact byte sequences. The only
//! computed part is the decimal rendering of an id; the rest are fixed
//! ASCII constants.

use vstd::prelude::*;

verus! {

/// The decimal digits of `n`, most significant first, as ASCII bytes.
pub open spec fn decimal_seq(n: nat) -> Seq<u8>
    decreases n,
{
    if n < 10 {
        seq![(48 + n) as u8]
    } else {
        decimal_seq(n / 10).push((48 + n % 10) as u8)
    }
}

/// Append the decimal rendering of `n` to `buf`.
pub fn push_decimal(buf: &mut Vec<u8>, n: usize)
    ensures
        final(buf)@ == old(buf)@ + decimal_seq(n as nat),
    decreases n,
{
    if n < 10 {
        buf.push(48 + n as u8);
        proof {
            assert(buf@ =~= old(buf)@ + decimal_seq(n as nat));
        }
    } else {
        proof {
            assert(n / 10 < n) by (nonlinear_arith)
                requires 10 <= n;
        }
        push_decimal(buf, n / 10);
        buf.push(48 + (n % 10) as u8);
        proof {
            assert(buf@ =~= old(buf)@ + decimal_seq(n as nat));
        }
    }
}

/// The success body `{"id":<id>}`.
pub open spec fn id_body(id: usize) -> Seq<u8> {
    seq![123u8, 34u8, 105u8, 100u8, 34u8, 58u8] + decimal_seq(id as nat) + seq![125u8]
}

/// Render `{"id":<id>}`.
pub fn render_id_body(id: usize) -> (r: Vec<u8>)
    ensures
        r@ == id_body(id),
{
    let mut buf: Vec<u8> = vec![123, 34, 105, 100, 34, 58];
    push_decimal(&mut buf, id);
    buf.push(125);
    proof {
        assert(buf@ =~= id_body(id));
    }
    buf
}

/// The common shape of the status bodies: `{"status":"<msg>"}`.
pub open spec fn status_body(msg: Seq<u8>) -> Seq<u8> {
    seq![123u8, 34u8, 115u8, 116u8, 97u8, 116u8, 117u8, 115u8, 34u8, 58u8, 34u8] + msg
        + seq![34u8, 125u8]
}

/// The body `{"status":"bad id"}`.
pub open spec fn bad_id_body() -> Seq<u8> {
    status_body(seq![98u8, 97u8, 100u8, 32u8, 105u8, 100u8])
}

/// Render `{"status":"bad id"}`.
pub fn render_bad_id_body() -> (r: Vec<u8>)
    ensures
        r@ == bad_id_body(),
{
    let r: Vec<u8> = vec![
        123, 34, 115, 116, 97, 116, 117, 115, 34, 58, 34, 98, 97, 100, 32, 105, 100, 34, 125,
    ];
    proof {
        assert(r@ =~= bad_id_body());
    }
    r
}

/// The body `{"status":"not found"}`.
pub open spec fn not_found_body() -> Seq<u8> {
    status_body(seq![110u8, 111u8, 116u8, 32u8, 102u8, 111u8, 117u8, 110u8, 100u8])
}

/// Render `{"status":"not found"}`.
pub fn render_not_found_body() -> (r: Vec<u8>)
    ensures
        r@ == not_found_body(),
{
    let r: Vec<u8> = vec![
        123, 34, 115, 116, 97, 116, 117, 115, 34, 58, 34, 110, 111, 116, 32, 102, 111, 117, 110,
        100, 34, 125,
    ];
    proof {
        assert(r@ =~= not_found_body());
    }
    r
}

/// The body `{"status":"teapot"}`.
pub open spec fn teapot_body() -> Seq<u8> {
    status_body(seq![116u8, 101u8, 97u8, 112u8, 111u8, 116u8])
}

/// Render `{"status":"teapot"}`.
pub fn render_teapot_body() -> (r: Vec<u8>)
    ensures
        r@ == teapot_body(),
{
    let r: Vec<u8> = vec![
        123, 34, 115, 116, 97, 116, 117, 115, 34, 58, 34, 116, 101, 97, 112, 111, 116, 34, 125,
    ];
    proof {
        assert(r@ =~= teapot_body());
    }
    r
}

} // verus!
