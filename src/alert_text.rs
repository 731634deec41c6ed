use vstd::prelude::*;
use vstd::string::StringExecFns;
use crate::health::HealthVerdict;
use crate::hex::ParseError;
use crate::rpc::RpcError;

verus! {

pub open spec fn digit_char(d: nat) -> char {
    if d == 0 {
        '0'
    } else if d == 1 {
        '1'
    } else if d == 2 {
        '2'
    } else if d == 3 {
        '3'
    } else if d == 4 {
        '4'
    } else if d == 5 {
        '5'
    } else if d == 6 {
        '6'
    } else if d == 7 {
        '7'
    } else if d == 8 {
        '8'
    } else {
        '9'
    }
}

/// The decimal numeral of `n`, without leading zeros.
pub open spec fn decimal_digits(n: nat) -> Seq<char>
    decreases n,
{
    if n < 10 {
        seq![digit_char(n)]
    } else {
        decimal_digits(n / 10).push(digit_char(n % 10))
    }
}

fn digit_str(d: u64) -> (r: &'static str)
    requires
        d < 10,
    ensures
        r@ == seq![digit_char(d as nat)],
{
    proof {
        reveal_strlit("0");
        reveal_strlit("1");
        reveal_strlit("2");
        reveal_strlit("3");
        reveal_strlit("4");
        reveal_strlit("5");
        reveal_strlit("6");
        reveal_strlit("7");
        reveal_strlit("8");
        reveal_strlit("9");
    }
    if d == 0 {
        "0"
    } else if d == 1 {
        "1"
    } else if d == 2 {
        "2"
    } else if d == 3 {
        "3"
    } else if d == 4 {
        "4"
    } else if d == 5 {
        "5"
    } else if d == 6 {
        "6"
    } else if d == 7 {
        "7"
    } else if d == 8 {
        "8"
    } else {
        "9"
    }
}

/// Writes `n` in decimal.
pub fn decimal_text(n: u64) -> (r: String)
    ensures
        r@ == decimal_digits(n as nat),
    decreases n,
{
    if n < 10 {
        digit_str(n).to_string()
    } else {
        let mut s = decimal_text(n / 10);
        s.append(digit_str(n % 10));
        s
    }
}

pub open spec fn parse_error_text(e: ParseError) -> Seq<char> {
    match e {
        ParseError::Empty => "no digits"@,
        ParseError::InvalidDigit => "invalid digit"@,
        ParseError::Overflow => "number too large"@,
    }
}

/// How an RPC failure reads in logs and alerts.
pub open spec fn error_text(e: RpcError) -> Seq<char> {
    match e {
        RpcError::Transport { detail } => "transport error: "@ + detail@,
        RpcError::HttpStatus { status } => "HTTP status "@ + decimal_digits(status as nat),
        RpcError::MalformedBody { detail } => detail@,
        RpcError::Protocol { message } => "RPC Error: "@ + message@,
        RpcError::HexDecode { error } => "invalid hex in result: "@ + parse_error_text(error),
    }
}

pub fn describe_error(e: &RpcError) -> (r: String)
    ensures
        r@ == error_text(*e),
{
    match e {
        RpcError::Transport { detail } => "transport error: ".to_string().concat(detail.as_str()),
        RpcError::HttpStatus { status } => {
            let digits = decimal_text(*status as u64);
            "HTTP status ".to_string().concat(digits.as_str())
        },
        RpcError::MalformedBody { detail } => detail.clone(),
        RpcError::Protocol { message } => "RPC Error: ".to_string().concat(message.as_str()),
        RpcError::HexDecode { error } => {
            let kind = match error {
                ParseError::Empty => "no digits",
                ParseError::InvalidDigit => "invalid digit",
                ParseError::Overflow => "number too large",
            };
            "invalid hex in result: ".to_string().concat(kind)
        },
    }
}

/// The text of the alert that a verdict calls for, given the two heights
/// read in the cycle; `None` for a verdict that calls for none.
pub open spec fn alert_text(verdict: HealthVerdict, local: u64, remote: u64) -> Option<Seq<char>> {
    match verdict {
        HealthVerdict::Lagging { lag } => Some(
            "🚨[WARN] NODE LAGGING! Local: "@ + decimal_digits(local as nat) + " | Remote: "@
                + decimal_digits(remote as nat) + " | Lag: "@ + decimal_digits(lag as nat)
                + " blocks"@,
        ),
        HealthVerdict::LocalUnreachable { cause } => Some(
            "🚨[CRITICAL] LOCAL NODE DOWN! Error: "@ + error_text(cause),
        ),
        _ => None,
    }
}

/// Builds the alert for `verdict`; `local` and `remote` are the heights read
/// in the cycle, shown in a lagging alert.
pub fn alert_message(verdict: &HealthVerdict, local: u64, remote: u64) -> (r: Option<String>)
    ensures
        r is Some <==> verdict.alertable(),
        r is Some ==> alert_text(*verdict, local, remote) == Some(r->0@),
{
    match verdict {
        HealthVerdict::Lagging { lag } => {
            let mut s = "🚨[WARN] NODE LAGGING! Local: ".to_string();
            s.append(decimal_text(local).as_str());
            s.append(" | Remote: ");
            s.append(decimal_text(remote).as_str());
            s.append(" | Lag: ");
            s.append(decimal_text(*lag).as_str());
            s.append(" blocks");
            Some(s)
        },
        HealthVerdict::LocalUnreachable { cause } => {
            let s = "🚨[CRITICAL] LOCAL NODE DOWN! Error: ".to_string();
            Some(s.concat(describe_error(cause).as_str()))
        },
        _ => None,
    }
}

} // verus!
