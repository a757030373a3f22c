//! Syntax checks on a scan target: an IP literal or a host name.

use vstd::prelude::*;
use crate::errors::ModeError;
use crate::text::{chars_of, split, split_chars, views_of};

verus! {

/// What `char::is_alphanumeric` answers: the Unicode `Alphabetic` or `Numeric`
/// property.
pub uninterp spec fn unicode_alphanumeric(c: char) -> bool;

/// Relies on `char::is_alphanumeric`, which depends on the character alone.
#[verifier::external_body]
fn is_alphanumeric(c: char) -> (r: bool)
    ensures
        r == unicode_alphanumeric(c),
{
    c.is_alphanumeric()
}

/// Why one dot-separated label of a host name is rejected, if it is.
pub open spec fn label_error(l: Seq<char>) -> Option<Seq<char>> {
    if l.len() == 0 || l.len() > 63 {
        Some("Invalid hostname format"@)
    } else if !(forall|i: int| 0 <= i < l.len() ==> unicode_alphanumeric(#[trigger] l[i]) || l[i] == '-') {
        Some("Invalid hostname format (only alphanumeric and hyphens allowed)"@)
    } else if l[0] == '-' || l.last() == '-' {
        Some("Invalid hostname format (cannot start or end with hyphen)"@)
    } else {
        None
    }
}

/// The complaint about the first rejected label, if any.
pub open spec fn labels_error(ls: Seq<Seq<char>>) -> Option<Seq<char>>
    decreases ls.len(),
{
    if ls.len() == 0 {
        None
    } else {
        match labels_error(ls.drop_last()) {
            Some(m) => Some(m),
            None => label_error(ls.last()),
        }
    }
}

/// Why a target is rejected, if it is. An IP literal passes with no check on
/// its form; anything else must be a host name of at most 253 characters.
pub open spec fn target_error(t: Seq<char>, is_ip_literal: bool) -> Option<Seq<char>> {
    if t.len() == 0 {
        Some("Target cannot be empty"@)
    } else if is_ip_literal {
        None
    } else if t.len() > 253 {
        Some("Hostname too long (max 253 characters)"@)
    } else {
        labels_error(split(t, '.'))
    }
}

fn check_label(l: &Vec<char>) -> (r: Option<&'static str>)
    ensures
        r matches Some(m) ==> label_error(l@) == Some(m@),
        r is None ==> label_error(l@) is None,
{
    if l.len() == 0 || l.len() > 63 {
        return Some("Invalid hostname format");
    }
    let mut i: usize = 0;
    while i < l.len()
        invariant
            i <= l@.len(),
            0 < l@.len() <= 63,
            forall|k: int| 0 <= k < i ==> unicode_alphanumeric(#[trigger] l@[k]) || l@[k] == '-',
        decreases l.len() - i,
    {
        let c = l[i];
        if !(is_alphanumeric(c) || c == '-') {
            assert(!(unicode_alphanumeric(l@[i as int]) || l@[i as int] == '-'));
            return Some("Invalid hostname format (only alphanumeric and hyphens allowed)");
        }
        i = i + 1;
    }
    if l[0] == '-' || l[l.len() - 1] == '-' {
        return Some("Invalid hostname format (cannot start or end with hyphen)");
    }
    None
}

/// Checks the form of a scan target. `is_ip_literal` tells whether the text
/// parses as an IPv4 or IPv6 address; such a target needs no other check.
pub fn validate_target(target: &str, is_ip_literal: bool) -> (r: Result<(), ModeError>)
    ensures
        target_error(target@, is_ip_literal) is None ==> r is Ok,
        target_error(target@, is_ip_literal) matches Some(m) ==> r matches Err(
            ModeError::Generic(msg),
        ) && msg@ == m,
{
    let t = chars_of(target);
    if t.len() == 0 {
        return Err(ModeError::Generic("Target cannot be empty".to_owned()));
    }
    if is_ip_literal {
        return Ok(());
    }
    if t.len() > 253 {
        return Err(ModeError::Generic("Hostname too long (max 253 characters)".to_owned()));
    }
    let labels = split_chars(&t, '.');
    let ghost ls = split(target@, '.');
    let mut k: usize = 0;
    assert(ls.take(0) =~= Seq::<Seq<char>>::empty());
    while k < labels.len()
        invariant
            views_of(labels@) == ls,
            ls == split(target@, '.'),
            0 < target@.len() <= 253,
            !is_ip_literal,
            k <= labels@.len(),
            labels_error(ls.take(k as int)) is None,
        decreases labels.len() - k,
    {
        assert(ls.take(k + 1).drop_last() =~= ls.take(k as int));
        assert(ls.take(k + 1).last() == labels@[k as int]@);
        if let Some(m) = check_label(&labels[k]) {
            assert(labels_error(ls.take(k + 1)) == Some(m@));
            proof {
                lemma_labels_error_persists(ls, k + 1);
            }
            assert(labels_error(ls) == Some(m@));
            assert(target_error(target@, is_ip_literal) == Some(m@));
            return Err(ModeError::Generic(m.to_owned()));
        }
        k = k + 1;
    }
    assert(ls.take(labels@.len() as int) =~= ls);
    Ok(())
}

/// Once a label is rejected, every longer list of labels is rejected with the
/// same complaint.
proof fn lemma_labels_error_persists(ls: Seq<Seq<char>>, k: int)
    requires
        1 <= k <= ls.len(),
        labels_error(ls.take(k)) is Some,
    ensures
        labels_error(ls) == labels_error(ls.take(k)),
    decreases ls.len() - k,
{
    if k < ls.len() {
        assert(ls.take(k + 1).drop_last() =~= ls.take(k));
        lemma_labels_error_persists(ls, k + 1);
    } else {
        assert(ls.take(k) =~= ls);
    }
}

} // verus!
