//! Episode catalogue backed by Scylla and served over GraphQL: the query
//! building, request routing decisions and row handling of the service.
pub mod domains;
pub mod graphql;
pub mod util;

use vstd::prelude::*;

verus! {

/// The decimal digit of `d`, for `d < 10`.
pub open spec fn decimal_digit(d: nat) -> char {
    (48 + d) as char
}

/// The decimal form of `n`, without leading zeros.
pub open spec fn decimal(n: nat) -> Seq<char>
    decreases n,
{
    if n < 10 {
        seq![decimal_digit(n)]
    } else {
        decimal(n / 10).push(decimal_digit(n % 10))
    }
}

/// Calls `to_string` (`Display`) of `u16`; the contract claims the
/// documented decimal form.
#[verifier::external_body]
fn port_string(port: u16) -> (text: String)
    ensures
        text@ == decimal(port as nat),
{
    port.to_string()
}

/// The address that the server binds: every interface, on `port`.
pub fn bind_address(port: u16) -> (address: String)
    ensures
        address@ == "0.0.0.0:"@ + decimal(port as nat),
{
    let mut address = String::from_str("0.0.0.0:");
    let port_text = port_string(port);
    address.append(port_text.as_str());
    address
}

/// The number that a run of decimal digits stands for.
pub open spec fn digits_value(digits: Seq<char>) -> nat
    decreases digits.len(),
{
    if digits.len() == 0 {
        0
    } else {
        digits_value(digits.drop_last()) * 10 + ((digits.last() as int) - 48) as nat
    }
}

/// The decimal form of a number is a non-empty run of digits '0' to '9',
/// with no leading zero, that reads back as that number.
pub proof fn lemma_decimal_reads_back(n: nat)
    ensures
        decimal(n).len() > 0,
        forall|i: int|
            0 <= i < decimal(n).len() ==> 48 <= (#[trigger] decimal(n)[i] as int) <= 57,
        decimal(n)[0] == '0' ==> n == 0,
        digits_value(decimal(n)) == n,
    decreases n,
{
    if n < 10 {
        assert(decimal(n) == seq![decimal_digit(n)]);
        assert(decimal(n).drop_last() =~= Seq::<char>::empty());
        assert(decimal(n).last() as int == 48 + n);
        assert(digits_value(decimal(n).drop_last()) == 0);
    } else {
        lemma_decimal_reads_back(n / 10);
        let front = decimal(n / 10);
        assert(decimal(n) == front.push(decimal_digit(n % 10)));
        assert(decimal(n).drop_last() =~= front);
        assert forall|i: int| 0 <= i < decimal(n).len() implies 48 <= (
        #[trigger] decimal(n)[i] as int) <= 57 by {
            if i < front.len() {
                assert(decimal(n)[i] == front[i]);
            }
        }
        assert(decimal(n)[0] == front[0]);
        assert(decimal(n).last() as int == 48 + n % 10);
        vstd::arithmetic::div_mod::lemma_fundamental_div_mod(n as int, 10);
        assert(digits_value(decimal(n)) == digits_value(front) * 10 + n % 10);
        assert((n / 10) * 10 == 10 * (n / 10)) by (nonlinear_arith);
    }
}

} // verus!
