//! Plain-text renderings of the two token types, one field per line, for
//! logging. Each rendering is pinned down exactly, including the decimal
//! form of the expiry.

use vstd::prelude::*;
use vstd::string::StringExecFns;

use crate::request::{join_scopes, spec_join_scopes};
use crate::{AppAccessToken, AppAccessTokenView, ValidatedToken, ValidatedTokenView};

verus! {

pub open spec fn spec_digit_char(d: int) -> char {
    if d == 0 {
        '0'
    } else if d == 1 {
        '1'
    } else if d == 2 {
        '2'
    } else if d == 3 {
        '3'
    } else if d == 4 {
        '4'
    } else if d == 5 {
        '5'
    } else if d == 6 {
        '6'
    } else if d == 7 {
        '7'
    } else if d == 8 {
        '8'
    } else {
        '9'
    }
}

/// The decimal digits of a non-negative integer, most significant first.
pub open spec fn spec_decimal(n: int) -> Seq<char>
    decreases n,
{
    if n < 10 {
        seq![spec_digit_char(n)]
    } else {
        spec_decimal(n / 10).push(spec_digit_char(n % 10))
    }
}

fn digit_char_str(d: usize) -> (r: &'static str)
    requires
        d < 10,
    ensures
        r@ == seq![spec_digit_char(d as int)],
{
    proof {
        reveal_strlit("0");
        reveal_strlit("1");
        reveal_strlit("2");
        reveal_strlit("3");
        reveal_strlit("4");
        reveal_strlit("5");
        reveal_strlit("6");
        reveal_strlit("7");
        reveal_strlit("8");
        reveal_strlit("9");
    }
    if d == 0 {
        "0"
    } else if d == 1 {
        "1"
    } else if d == 2 {
        "2"
    } else if d == 3 {
        "3"
    } else if d == 4 {
        "4"
    } else if d == 5 {
        "5"
    } else if d == 6 {
        "6"
    } else if d == 7 {
        "7"
    } else if d == 8 {
        "8"
    } else {
        "9"
    }
}

/// The decimal form of `n`, without sign or padding.
pub fn decimal_string(n: usize) -> (r: String)
    ensures
        r@ == spec_decimal(n as int),
    decreases n,
{
    if n < 10 {
        digit_char_str(n).to_owned()
    } else {
        let mut s = decimal_string(n / 10);
        s.append(digit_char_str(n % 10));
        proof {
            assert(spec_decimal(n as int / 10).push(spec_digit_char(n as int % 10))
                =~= spec_decimal(n as int / 10) + seq![spec_digit_char(n as int % 10)]);
        }
        s
    }
}

pub open spec fn spec_opt_text(o: Option<Seq<char>>) -> Seq<char> {
    match o {
        Option::None => "none"@,
        Option::Some(s) => s,
    }
}

/// The rendering `AppAccessToken::describe` returns.
pub open spec fn spec_app_token_text(m: AppAccessTokenView) -> Seq<char> {
    "access_token: "@ + m.access_token + "\nexpires_in: "@ + spec_decimal(m.expires_in)
        + "\ntoken_type: "@ + m.token_type + "\nscope: "@ + (match m.scope {
        Option::None => "none"@,
        Option::Some(ss) => spec_join_scopes(ss),
    }) + "\n"@
}

/// The rendering `ValidatedToken::describe` returns.
pub open spec fn spec_validated_token_text(m: ValidatedTokenView) -> Seq<char> {
    "client_id: "@ + m.client_id + "\nlogin: "@ + spec_opt_text(m.login) + "\nuser_id: "@
        + spec_opt_text(m.user_id) + "\nscopes: "@ + spec_join_scopes(m.scopes) + "\n"@
}

impl AppAccessToken {
    /// A one-field-per-line text rendering, for logging.
    pub fn describe(&self) -> (r: String)
        ensures
            r@ == spec_app_token_text(self@),
    {
        let mut r = "access_token: ".to_owned();
        r.append(self.access_token.as_str());
        r.append("\nexpires_in: ");
        r.append(decimal_string(self.expires_in).as_str());
        r.append("\ntoken_type: ");
        r.append(self.token_type.as_str());
        r.append("\nscope: ");
        match &self.scope {
            Option::None => r.append("none"),
            Option::Some(v) => r.append(join_scopes(v).as_str()),
        }
        r.append("\n");
        r
    }
}

impl ValidatedToken {
    /// A one-field-per-line text rendering, for logging.
    pub fn describe(&self) -> (r: String)
        ensures
            r@ == spec_validated_token_text(self@),
    {
        let mut r = "client_id: ".to_owned();
        r.append(self.client_id.as_str());
        r.append("\nlogin: ");
        match &self.login {
            Option::None => r.append("none"),
            Option::Some(s) => r.append(s.as_str()),
        }
        r.append("\nuser_id: ");
        match &self.user_id {
            Option::None => r.append("none"),
            Option::Some(s) => r.append(s.as_str()),
        }
        r.append("\nscopes: ");
        r.append(join_scopes(&self.scopes).as_str());
        r.append("\n");
        r
    }
}

} // verus!
