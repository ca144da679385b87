//! Currency codes and the symbols they are shown with.

use vstd::prelude::*;
use vstd::string::StringExecFns;

verus! {

/// The symbol shown for a currency code. Four codes are known; every other
/// code is shown with the Euro sign.
pub open spec fn currency_symbol(code: Seq<char>) -> Seq<char> {
    if code == "EUR"@ {
        "€"@
    } else if code == "USD"@ {
        "$"@
    } else if code == "UAH"@ {
        "₴"@
    } else if code == "BTC"@ {
        "₿"@
    } else {
        "€"@
    }
}

/// Whether two strings hold the same text.
fn same_text(left: &str, right: &str) -> (same: bool)
    ensures
        same == (left@ == right@),
{
    String::from_str(left) == String::from_str(right)
}

/// Looks up the symbol for `currency`. The lookup never fails: a code that
/// is not in the table gets the Euro sign.
pub fn get_currency_symbol(currency: &str) -> (symbol: String)
    ensures
        symbol@ == currency_symbol(currency@),
{
    if same_text(currency, "EUR") {
        String::from_str("€")
    } else if same_text(currency, "USD") {
        String::from_str("$")
    } else if same_text(currency, "UAH") {
        String::from_str("₴")
    } else if same_text(currency, "BTC") {
        String::from_str("₿")
    } else {
        String::from_str("€")
    }
}

/// The symbol of a code outside the table is the Euro sign, and each code in
/// the table has the symbol listed for it.
pub proof fn lemma_currency_symbol_table(code: Seq<char>)
    ensures
        code != "USD"@ && code != "UAH"@ && code != "BTC"@ ==> currency_symbol(code) == "€"@,
        currency_symbol("EUR"@) == "€"@,
        currency_symbol("USD"@) == "$"@,
        currency_symbol("UAH"@) == "₴"@,
        currency_symbol("BTC"@) == "₿"@,
{
    reveal_strlit("EUR");
    reveal_strlit("USD");
    reveal_strlit("UAH");
    reveal_strlit("BTC");
    assert("USD"@ != "EUR"@) by {
        assert("USD"@[0] == 'U');
        assert("EUR"@[0] == 'E');
    }
    assert("UAH"@ != "EUR"@) by {
        assert("UAH"@[0] == 'U');
        assert("EUR"@[0] == 'E');
    }
    assert("UAH"@ != "USD"@) by {
        assert("UAH"@[1] == 'A');
        assert("USD"@[1] == 'S');
    }
    assert("BTC"@ != "EUR"@) by {
        assert("BTC"@[0] == 'B');
        assert("EUR"@[0] == 'E');
    }
    assert("BTC"@ != "USD"@) by {
        assert("BTC"@[0] == 'B');
        assert("USD"@[0] == 'U');
    }
    assert("BTC"@ != "UAH"@) by {
        assert("BTC"@[0] == 'B');
        assert("UAH"@[0] == 'U');
    }
}

} // verus!
