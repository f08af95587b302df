//! Setting up the local identity's files.
use vstd::prelude::*;
use crate::error::MessengerError;
use crate::stamp::hex_digit;

verus! {

/// Whether initializing may go ahead, given which of the private key, public
/// key, profile and contacts files exist: it is refused, unless `force` is
/// given, while a key or the profile exists; when it goes ahead, the result
/// tells whether the contacts file is written (always when forced, otherwise
/// only when it does not exist yet).
pub fn init_plan(
    force: bool,
    private_exists: bool,
    public_exists: bool,
    profile_exists: bool,
    contacts_exists: bool,
) -> (res: Result<bool, MessengerError>)
    ensures
        !force && (private_exists || public_exists || profile_exists) ==> res == Err::<bool, MessengerError>(
            MessengerError::IdentityExists,
        ),
        force || !(private_exists || public_exists || profile_exists) ==> res == Ok::<bool, MessengerError>(
            force || !contacts_exists,
        ),
{
    if !force && (private_exists || public_exists || profile_exists) {
        return Err(MessengerError::IdentityExists);
    }
    Ok(force || !contacts_exists)
}

/// The lower-case hex text of `bytes`, two digits per byte, high digit first.
pub open spec fn hex_of(bytes: Seq<u8>) -> Seq<char>
    decreases bytes.len(),
{
    if bytes.len() == 0 {
        Seq::empty()
    } else {
        hex_of(bytes.drop_last()) + seq![
            hex_digit((bytes.last() / 16) as nat),
            hex_digit((bytes.last() % 16) as nat),
        ]
    }
}

fn hex_text(d: u8) -> (s: &'static str)
    requires
        d < 16,
    ensures
        s@ == seq![hex_digit(d as nat)],
{
    proof {
        reveal_strlit("0");
        reveal_strlit("1");
        reveal_strlit("2");
        reveal_strlit("3");
        reveal_strlit("4");
        reveal_strlit("5");
        reveal_strlit("6");
        reveal_strlit("7");
        reveal_strlit("8");
        reveal_strlit("9");
        reveal_strlit("a");
        reveal_strlit("b");
        reveal_strlit("c");
        reveal_strlit("d");
        reveal_strlit("e");
        reveal_strlit("f");
    }
    if d == 0 { "0" }
    else if d == 1 { "1" }
    else if d == 2 { "2" }
    else if d == 3 { "3" }
    else if d == 4 { "4" }
    else if d == 5 { "5" }
    else if d == 6 { "6" }
    else if d == 7 { "7" }
    else if d == 8 { "8" }
    else if d == 9 { "9" }
    else if d == 10 { "a" }
    else if d == 11 { "b" }
    else if d == 12 { "c" }
    else if d == 13 { "d" }
    else if d == 14 { "e" }
    else { "f" }
}

/// A key's bytes as lower-case hex text, as the identity files store keys.
pub fn key_hex(bytes: &[u8; 32]) -> (s: String)
    ensures
        s@ == hex_of(bytes@),
{
    let mut out = String::new();
    let mut i: usize = 0;
    while i < 32
        invariant
            i <= 32,
            bytes@.len() == 32,
            out@ == hex_of(bytes@.take(i as int)),
        decreases 32 - i,
    {
        let b = bytes[i];
        out.append(hex_text(b / 16));
        out.append(hex_text(b % 16));
        proof {
            assert(bytes@.take(i + 1).drop_last() =~= bytes@.take(i as int));
            assert(bytes@.take(i + 1).last() == b);
            assert(out@ =~= hex_of(bytes@.take(i + 1)));
        }
        i = i + 1;
    }
    proof {
        assert(bytes@.take(32) =~= bytes@);
    }
    out
}

} // verus!
