//! Verified text building: decimal rendering of identifiers, the seed post's
//! attributed-original-poster marker, the impersonation display label, the
//! created thread's title, and the status lines sent back to the invoker.

use vstd::prelude::*;
use vstd::string::StringExecFns;

verus! {

/// The character of one decimal digit.
pub open spec fn digit_char(d: nat) -> char {
    if d == 0 {
        '0'
    } else if d == 1 {
        '1'
    } else if d == 2 {
        '2'
    } else if d == 3 {
        '3'
    } else if d == 4 {
        '4'
    } else if d == 5 {
        '5'
    } else if d == 6 {
        '6'
    } else if d == 7 {
        '7'
    } else if d == 8 {
        '8'
    } else {
        '9'
    }
}

/// The decimal rendering of a number, without sign or leading zeros.
pub open spec fn dec_rep(n: nat) -> Seq<char>
    decreases n,
{
    if n < 10 {
        seq![digit_char(n)]
    } else {
        dec_rep(n / 10).push(digit_char(n % 10))
    }
}

/// Appends the decimal rendering of `n`.
pub fn push_decimal(s: &mut String, n: u64)
    ensures
        final(s)@ == old(s)@ + dec_rep(n as nat),
    decreases n,
{
    if n >= 10 {
        push_decimal(s, n / 10);
    }
    let d = n % 10;
    let digit: &str = if d == 0 {
        "0"
    } else if d == 1 {
        "1"
    } else if d == 2 {
        "2"
    } else if d == 3 {
        "3"
    } else if d == 4 {
        "4"
    } else if d == 5 {
        "5"
    } else if d == 6 {
        "6"
    } else if d == 7 {
        "7"
    } else if d == 8 {
        "8"
    } else {
        "9"
    };
    proof {
        reveal_strlit("0");
        reveal_strlit("1");
        reveal_strlit("2");
        reveal_strlit("3");
        reveal_strlit("4");
        reveal_strlit("5");
        reveal_strlit("6");
        reveal_strlit("7");
        reveal_strlit("8");
        reveal_strlit("9");
        assert(digit@ =~= seq![digit_char((n % 10) as nat)]);
    }
    s.append(digit);
    proof {
        if n < 10 {
            assert(old(s)@ + dec_rep(n as nat) =~= old(s)@ + seq![digit_char(n as nat)]);
        } else {
            assert(old(s)@ + dec_rep(n as nat) =~= (old(s)@ + dec_rep((n / 10) as nat)) + seq![
                digit_char((n % 10) as nat),
            ]);
        }
    }
}

/// The decimal rendering of `n` as a fresh string.
pub fn decimal(n: u64) -> (r: String)
    ensures
        r@ == dec_rep(n as nat),
{
    let mut s = String::new();
    push_decimal(&mut s, n);
    proof {
        assert(s@ =~= dec_rep(n as nat));
    }
    s
}

/// The seed post's text: the original content framed by newlines, followed by
/// a spoilered marker line attributing the original poster.
pub open spec fn seed_content_spec(content: Seq<char>, author_id: nat) -> Seq<char> {
    "\n"@ + content + "\n||OP: <@"@ + dec_rep(author_id) + ">||\n"@
}

/// Builds the seed post's text for the given original content and author.
pub fn seed_content(content: &str, author_id: u64) -> (r: String)
    ensures
        r@ == seed_content_spec(content@, author_id as nat),
{
    let mut s = String::from_str("\n");
    s.append(content);
    s.append("\n||OP: <@");
    push_decimal(&mut s, author_id);
    s.append(">||\n");
    proof {
        assert(s@ =~= seed_content_spec(content@, author_id as nat));
    }
    s
}

/// The display label an impersonated post carries: the resolved display name,
/// then the resolved account name in parentheses.
pub open spec fn identity_label_spec(display_name: Seq<char>, account_name: Seq<char>) -> Seq<
    char,
> {
    display_name + " - ("@ + account_name + ")"@
}

/// Builds the display label from a resolved identity.
pub fn identity_label(display_name: &str, account_name: &str) -> (r: String)
    ensures
        r@ == identity_label_spec(display_name@, account_name@),
{
    let mut s = String::from_str(display_name);
    s.append(" - (");
    s.append(account_name);
    s.append(")");
    proof {
        assert(s@ =~= identity_label_spec(display_name@, account_name@));
    }
    s
}

/// The created thread's title: the source thread's name, or a default when
/// the source carries none.
pub open spec fn thread_title_spec(source_name: Option<String>) -> Seq<char> {
    match source_name {
        Some(n) => n@,
        None => "Thread"@,
    }
}

/// Builds the created thread's title.
pub fn thread_title(source_name: &Option<String>) -> (r: String)
    ensures
        r@ == thread_title_spec(*source_name),
{
    match source_name {
        Some(n) => n.clone(),
        None => String::from_str("Thread"),
    }
}

/// The status line of a successful migration, mentioning the destination
/// channel.
pub open spec fn success_status_spec(destination: nat) -> Seq<char> {
    "Message sent to <#"@ + dec_rep(destination) + ">"@
}

/// Builds the success status line.
pub fn success_status(destination: u64) -> (r: String)
    ensures
        r@ == success_status_spec(destination as nat),
{
    let mut s = String::from_str("Message sent to <#");
    push_decimal(&mut s, destination);
    s.append(">");
    proof {
        assert(s@ =~= success_status_spec(destination as nat));
    }
    s
}

/// The one follow-up line an invocation yields: a mention of the invoking
/// user, a space, and the status text.
pub open spec fn followup_spec(user_id: nat, status: Seq<char>) -> Seq<char> {
    "<@"@ + dec_rep(user_id) + "> "@ + status
}

/// Builds the follow-up line addressed to the invoking user.
pub fn followup_line(user_id: u64, status: &str) -> (r: String)
    ensures
        r@ == followup_spec(user_id as nat, status@),
{
    let mut s = String::from_str("<@");
    push_decimal(&mut s, user_id);
    s.append("> ");
    s.append(status);
    proof {
        assert(s@ =~= followup_spec(user_id as nat, status@));
    }
    s
}

} // verus!
