//! Resolution of a delimited list of addresses into validated mailboxes.
//!
//! The list is cut at every `,` and `;`, each piece is trimmed, and empty
//! pieces are dropped. Each remaining token is handed to the address parser
//! of the `lettre` crate; the first token that it rejects fails the whole
//! list.

use crate::address::{parse_mailbox, parsed_mailbox, AddressError, Mailbox, MailboxView};
use crate::text::{
    chars_of, is_whitespace, lemma_drop_trailing_at, lemma_drop_trailing_ends,
    lemma_skip_leading_at, lemma_skip_leading_ends, lemma_trimmed_ends, skip_leading, trimmed,
    whitespace,
};
use vstd::prelude::*;

verus! {

/// Whether `c` separates two addresses of a list.
pub open spec fn is_delimiter(c: char) -> bool {
    c == ',' || c == ';'
}

/// The length of the piece that `s` begins with: the index of the first
/// delimiter, or the length of `s` where there is none.
pub open spec fn field_end(s: Seq<char>) -> int
    decreases s.len(),
{
    if s.len() == 0 || is_delimiter(s[0]) {
        0
    } else {
        1 + field_end(s.skip(1))
    }
}

/// The tokens of a list: its pieces between delimiters, trimmed, without
/// the empty ones, in the order of the list.
pub open spec fn tokens(s: Seq<char>) -> Seq<Seq<char>>
    decreases s.len(),
{
    let end = field_end(s);
    let token = trimmed(s.take(end));
    let first = if token.len() > 0 {
        seq![token]
    } else {
        Seq::empty()
    };
    if 0 <= end < s.len() {
        first + tokens(s.skip(end + 1))
    } else {
        first
    }
}

/// The first piece ends within the list, holds no delimiter, and is followed
/// by one unless it reaches the end of the list.
pub proof fn lemma_field_end(s: Seq<char>)
    ensures
        0 <= field_end(s) <= s.len(),
        forall|j: int| 0 <= j < field_end(s) ==> !is_delimiter(#[trigger] s[j]),
        field_end(s) < s.len() ==> is_delimiter(s[field_end(s)]),
    decreases s.len(),
{
    if s.len() == 0 || is_delimiter(s[0]) {
    } else {
        let rest = s.skip(1);
        lemma_field_end(rest);
        assert forall|j: int| 0 <= j < field_end(s) implies !is_delimiter(#[trigger] s[j]) by {
            if j > 0 {
                assert(s[j] == rest[j - 1]);
            }
        }
    }
}

/// The first piece ends at `k` where no delimiter stands before `k` and one
/// stands at `k`, or `k` is the end of the list.
pub proof fn lemma_field_end_at(s: Seq<char>, k: int)
    requires
        0 <= k <= s.len(),
        forall|j: int| 0 <= j < k ==> !is_delimiter(#[trigger] s[j]),
        k < s.len() ==> is_delimiter(s[k]),
    ensures
        field_end(s) == k,
    decreases k,
{
    if k > 0 {
        let rest = s.skip(1);
        assert forall|j: int| 0 <= j < k - 1 implies !is_delimiter(#[trigger] rest[j]) by {
            assert(rest[j] == s[j + 1]);
        }
        assert(!is_delimiter(s[0]));
        lemma_field_end_at(rest, k - 1);
    }
}

/// What a token looks like: not empty, without a delimiter, and with no
/// whitespace at either end.
pub open spec fn is_token(token: Seq<char>) -> bool {
    &&& token.len() > 0
    &&& !is_whitespace(token.first())
    &&& !is_whitespace(token.last())
    &&& forall|j: int| 0 <= j < token.len() ==> !is_delimiter(#[trigger] token[j])
}

/// Every token is non-empty, holds no delimiter, and neither begins nor
/// ends with whitespace.
pub proof fn lemma_tokens_are_trimmed(s: Seq<char>)
    ensures
        forall|i: int| 0 <= i < tokens(s).len() ==> is_token(#[trigger] tokens(s)[i]),
    decreases s.len(),
{
    let end = field_end(s);
    let field = s.take(end);
    let token = trimmed(field);
    let first = if token.len() > 0 {
        seq![token]
    } else {
        Seq::empty()
    };
    let rest = if 0 <= end < s.len() {
        tokens(s.skip(end + 1))
    } else {
        Seq::empty()
    };
    assert(tokens(s) =~= first + rest);
    lemma_field_end(s);
    lemma_trimmed_ends(field);
    lemma_skip_leading_ends(field);
    lemma_drop_trailing_ends(skip_leading(field));
    let lead = field.len() - skip_leading(field).len();
    assert forall|j: int| 0 <= j < token.len() implies !is_delimiter(#[trigger] token[j]) by {
        assert(token[j] == skip_leading(field)[j]);
        assert(skip_leading(field)[j] == field[lead + j]);
        assert(field[lead + j] == s[lead + j]);
    }
    if 0 <= end < s.len() {
        lemma_tokens_are_trimmed(s.skip(end + 1));
    }
    assert forall|i: int| 0 <= i < tokens(s).len() implies is_token(#[trigger] tokens(s)[i]) by {
        if i < first.len() {
            assert(tokens(s)[i] == token);
        } else {
            assert(tokens(s)[i] == rest[i - first.len()]);
        }
    }
}

/// Tokens come in the order of the list: the tokens of two lists joined by a
/// delimiter are the tokens of the first followed by those of the second.
pub proof fn lemma_tokens_of_joined(a: Seq<char>, d: char, b: Seq<char>)
    requires
        is_delimiter(d),
    ensures
        tokens(a.push(d) + b) == tokens(a) + tokens(b),
    decreases a.len(),
{
    let s = a.push(d) + b;
    let k = field_end(a);
    lemma_field_end(a);
    assert forall|j: int| 0 <= j < k implies !is_delimiter(#[trigger] s[j]) by {
        assert(s[j] == a[j]);
    }
    assert(is_delimiter(s[k])) by {
        if k < a.len() {
            assert(s[k] == a[k]);
        } else {
            assert(s[k] == d);
        }
    }
    lemma_field_end_at(s, k);
    assert(s.take(k) =~= a.take(k));
    let token = trimmed(a.take(k));
    let first = if token.len() > 0 {
        seq![token]
    } else {
        Seq::empty()
    };
    if k < a.len() {
        let rest = a.skip(k + 1);
        assert(s.skip(k + 1) =~= rest.push(d) + b);
        lemma_tokens_of_joined(rest, d, b);
        assert(first + (tokens(rest) + tokens(b)) =~= (first + tokens(rest)) + tokens(b));
    } else {
        assert(s.skip(k + 1) =~= b);
    }
}

fn delimiter(c: char) -> (b: bool)
    ensures
        b == is_delimiter(c),
{
    c == ',' || c == ';'
}

/// Cuts a list of addresses into its tokens.
pub fn split<'a>(input: &'a str) -> (parts: Vec<&'a str>)
    ensures
        parts.deep_view() == tokens(input@),
{
    let chars = chars_of(input);
    let n: usize = chars.len();
    let ghost s = input@;
    let mut parts: Vec<&'a str> = Vec::new();
    let mut start: usize = 0;
    let mut done = false;
    assert(s.skip(0) =~= s);
    assert(parts.deep_view() =~= Seq::<Seq<char>>::empty());
    while !done
        invariant
            chars@ == s,
            s == input@,
            n == s.len(),
            start <= n,
            !done ==> parts.deep_view() + tokens(s.skip(start as int)) == tokens(s),
            done ==> parts.deep_view() == tokens(s),
        decreases n - start + (if done { 0int } else { 1int }),
    {
        let ghost rest = s.skip(start as int);
        let mut end: usize = start;
        while end < n && !delimiter(chars[end])
            invariant
                chars@ == s,
                n == s.len(),
                start <= end <= n,
                forall|j: int| start <= j < end ==> !is_delimiter(#[trigger] s[j]),
            decreases n - end,
        {
            end += 1;
        }
        let mut a: usize = start;
        while a < end && whitespace(chars[a])
            invariant
                chars@ == s,
                n == s.len(),
                start <= a <= end <= n,
                forall|j: int| start <= j < a ==> is_whitespace(#[trigger] s[j]),
            decreases end - a,
        {
            a += 1;
        }
        let mut b: usize = end;
        while b > a && whitespace(chars[b - 1])
            invariant
                chars@ == s,
                n == s.len(),
                a <= b <= end <= n,
                forall|j: int| b <= j < end ==> is_whitespace(#[trigger] s[j]),
            decreases b,
        {
            b -= 1;
        }
        let ghost field = s.subrange(start as int, end as int);
        let ghost token = s.subrange(a as int, b as int);
        proof {
            assert forall|j: int| 0 <= j < end - start implies !is_delimiter(
                #[trigger] rest[j],
            ) by {
                assert(rest[j] == s[start + j]);
            }
            lemma_field_end_at(rest, end - start);
            assert(rest.take(end - start) =~= field);
            assert forall|j: int| 0 <= j < a - start implies is_whitespace(#[trigger] field[j]) by {
                assert(field[j] == s[start + j]);
            }
            lemma_skip_leading_at(field, a - start);
            let inner = field.skip(a - start);
            assert(inner =~= s.subrange(a as int, end as int));
            assert forall|j: int| b - a <= j < inner.len() implies is_whitespace(
                #[trigger] inner[j],
            ) by {
                assert(inner[j] == s[a + j]);
            }
            lemma_drop_trailing_at(inner, b - a);
            assert(inner.take(b - a) =~= token);
            assert(trimmed(field) == token);
            if end < n {
                assert(rest.skip(end - start + 1) =~= s.skip(end + 1));
            }
        }
        let ghost before = parts.deep_view();
        if a < b {
            parts.push(input.substring_char(a, b));
            assert(parts.deep_view() =~= before + seq![token]);
        }
        proof {
            let first = if token.len() > 0 {
                seq![token]
            } else {
                Seq::empty()
            };
            assert(parts.deep_view() =~= before + first);
            if end < n {
                assert(tokens(rest) == first + tokens(s.skip(end + 1)));
                assert(before + (first + tokens(s.skip(end + 1))) =~= (before + first) + tokens(
                    s.skip(end + 1),
                ));
            } else {
                assert(tokens(rest) == first);
            }
        }
        if end < n {
            start = end + 1;
        } else {
            done = true;
        }
    }
    parts
}

/// Whether the parser accepts every token.
pub open spec fn all_accepted(toks: Seq<Seq<char>>) -> bool {
    forall|i: int| 0 <= i < toks.len() ==> (#[trigger] parsed_mailbox(toks[i])) is Ok
}

/// Whether the token at `k` is the first that the parser rejects.
pub open spec fn first_rejected(toks: Seq<Seq<char>>, k: int) -> bool {
    &&& 0 <= k < toks.len()
    &&& parsed_mailbox(toks[k]) is Err
    &&& forall|j: int| 0 <= j < k ==> (#[trigger] parsed_mailbox(toks[j])) is Ok
}

/// The mailboxes of a sequence of tokens: one for each token, in order,
/// where the parser accepts them all; else the reason for which it rejects
/// the first one that it rejects.
pub open spec fn resolved(toks: Seq<Seq<char>>) -> Result<Seq<MailboxView>, AddressError> {
    if all_accepted(toks) {
        Ok(Seq::new(toks.len(), |i: int| parsed_mailbox(toks[i])->Ok_0))
    } else {
        let k = choose|k: int| first_rejected(toks, k);
        Err(parsed_mailbox(toks[k])->Err_0)
    }
}

/// Where the token at `k` is the first rejected one, the list fails with
/// the reason of that token.
pub proof fn lemma_resolved_fails_at(toks: Seq<Seq<char>>, k: int)
    requires
        first_rejected(toks, k),
    ensures
        resolved(toks) == Err::<Seq<MailboxView>, AddressError>(parsed_mailbox(toks[k])->Err_0),
{
    let chosen = choose|c: int| first_rejected(toks, c);
    assert(first_rejected(toks, chosen));
    if chosen < k {
        assert(parsed_mailbox(toks[chosen]) is Ok);
    }
    if k < chosen {
        assert(parsed_mailbox(toks[k]) is Ok);
    }
}

/// Resolves a delimited list of addresses: every token becomes a mailbox,
/// in the order of the list, or the first token that is no mailbox fails the
/// whole list and no mailbox is handed out.
pub fn resolve(address_list: &str) -> (r: Result<Vec<Mailbox>, AddressError>)
    ensures
        match r {
            Ok(found) => resolved(tokens(address_list@)) == Ok::<Seq<MailboxView>, AddressError>(
                found.deep_view(),
            ),
            Err(e) => resolved(tokens(address_list@)) == Err::<Seq<MailboxView>, AddressError>(e),
        },
        tokens(address_list@).len() == 0 ==> r is Ok,
{
    let parts = split(address_list);
    let ghost toks = tokens(address_list@);
    let mut found: Vec<Mailbox> = Vec::new();
    let mut i: usize = 0;
    while i < parts.len()
        invariant
            toks == tokens(address_list@),
            parts.deep_view() == toks,
            i <= parts.len(),
            found.len() == i,
            forall|j: int|
                0 <= j < i ==> (#[trigger] parsed_mailbox(toks[j])) == Ok::<
                    MailboxView,
                    AddressError,
                >(found[j]@),
        decreases parts.len() - i,
    {
        assert(parts[i as int]@ == toks[i as int]);
        match parse_mailbox(parts[i]) {
            Ok(mailbox) => {
                found.push(mailbox);
            },
            Err(e) => {
                proof {
                    lemma_resolved_fails_at(toks, i as int);
                }
                return Err(e);
            },
        }
        i += 1;
    }
    proof {
        assert(all_accepted(toks));
        assert(found.deep_view() =~= Seq::new(toks.len(), |i: int| parsed_mailbox(toks[i])->Ok_0));
    }
    Ok(found)
}

/// Something that gathers mailboxes and can take a whole delimited list of
/// addresses at once.
pub trait MultipleAddressParser: Sized {
    /// The mailboxes gathered so far.
    spec fn mailboxes(&self) -> Seq<MailboxView>;

    /// Adds every address of the delimited list `addresses`, in order. The
    /// first token that is no address fails the call, and nothing is handed
    /// back.
    fn to_addresses(self, addresses: &str) -> (r: Result<Self, AddressError>)
        ensures
            match r {
                Ok(extended) => resolved(tokens(addresses@)) matches Ok(found)
                    && extended.mailboxes() == self.mailboxes() + found,
                Err(e) => resolved(tokens(addresses@)) == Err::<Seq<MailboxView>, AddressError>(e),
            },
    ;
}

impl MultipleAddressParser for Vec<Mailbox> {
    open spec fn mailboxes(&self) -> Seq<MailboxView> {
        self.deep_view()
    }

    fn to_addresses(self, addresses: &str) -> (r: Result<Self, AddressError>) {
        match resolve(addresses) {
            Ok(mut found) => {
                let mut extended = self;
                let ghost before = extended.deep_view();
                let ghost added = found.deep_view();
                extended.append(&mut found);
                assert(extended.deep_view() =~= before + added);
                Ok(extended)
            },
            Err(e) => Err(e),
        }
    }
}

/// The entries of a list, with a comma and a space between them.
pub open spec fn joined(list: Seq<Seq<char>>) -> Seq<char>
    decreases list.len(),
{
    if list.len() == 0 {
        Seq::empty()
    } else if list.len() == 1 {
        list[0]
    } else {
        joined(list.drop_last()) + ", "@ + list.last()
    }
}

/// Joins the entries of a list with a comma and a space.
pub fn join_addresses(list: &Vec<String>) -> (text: String)
    ensures
        text@ == joined(list.deep_view()),
{
    let mut text = String::new();
    let mut i: usize = 0;
    while i < list.len()
        invariant
            i <= list.len(),
            text@ == joined(list.deep_view().take(i as int)),
        decreases list.len() - i,
    {
        let ghost before = list.deep_view().take(i as int);
        let ghost after = list.deep_view().take(i + 1);
        if i > 0 {
            text.append(", ");
        }
        text.append(list[i].as_str());
        proof {
            assert(after.drop_last() =~= before);
            assert(after.last() == list[i as int]@);
            if i == 0 {
                assert(text@ =~= after[0]);
            }
        }
        i += 1;
    }
    assert(list.deep_view().take(list.len() as int) =~= list.deep_view());
    text
}

/// The tokens of every entry of a list, entry after entry.
pub open spec fn tokens_of_each(list: Seq<Seq<char>>) -> Seq<Seq<char>>
    decreases list.len(),
{
    if list.len() == 0 {
        Seq::empty()
    } else {
        tokens_of_each(list.drop_last()) + tokens(list.last())
    }
}

/// A whitespace character in front of a list changes none of its tokens.
pub proof fn lemma_tokens_after_whitespace(c: char, b: Seq<char>)
    requires
        is_whitespace(c),
    ensures
        tokens(seq![c] + b) == tokens(b),
{
    let s = seq![c] + b;
    let end = field_end(b);
    lemma_field_end(b);
    assert(s.skip(1) =~= b);
    assert(field_end(s) == end + 1);
    assert(s.take(end + 1).skip(1) =~= b.take(end));
    assert(skip_leading(s.take(end + 1)) == skip_leading(b.take(end)));
    if end < b.len() {
        assert(s.skip(end + 2) =~= b.skip(end + 1));
    }
}

/// Joining the entries of a list and cutting the result into tokens gives
/// the tokens of every entry, entry after entry.
pub proof fn lemma_tokens_of_joined_list(list: Seq<Seq<char>>)
    ensures
        tokens(joined(list)) == tokens_of_each(list),
    decreases list.len(),
{
    if list.len() == 0 {
        assert(Seq::<char>::empty().take(0) =~= Seq::<char>::empty());
    } else if list.len() == 1 {
        assert(tokens_of_each(list.drop_last()) =~= Seq::<Seq<char>>::empty());
        assert(Seq::<Seq<char>>::empty() + tokens(list[0]) =~= tokens(list[0]));
    } else {
        let init = joined(list.drop_last());
        reveal_strlit(", ");
        assert(", "@ =~= seq![',', ' ']);
        assert(joined(list) =~= init.push(',') + (seq![' '] + list.last()));
        lemma_tokens_of_joined(init, ',', seq![' '] + list.last());
        lemma_tokens_after_whitespace(' ', list.last());
        lemma_tokens_of_joined_list(list.drop_last());
    }
}

} // verus!
