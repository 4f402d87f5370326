//! What the command line says about the network.

use crate::codec::chars_of;
use crate::types::Network;
use vstd::prelude::*;

verus! {

/// A character with the letters `A` to `Z` turned to lower case.
pub open spec fn ascii_lowercase_char(c: char) -> char {
    if 'A' <= c && c <= 'Z' {
        (c as int + 32) as char
    } else {
        c
    }
}

/// A text with the letters `A` to `Z` turned to lower case.
pub open spec fn ascii_lowercase(s: Seq<char>) -> Seq<char> {
    Seq::new(s.len(), |i: int| ascii_lowercase_char(s[i]))
}

/// The network that a name stands for: `mainnet` or `testnet`, in any mix of upper and lower
/// case.
pub open spec fn network_named(name: Seq<char>) -> Option<Network> {
    if ascii_lowercase(name) == "mainnet"@ {
        Some(Network::Mainnet)
    } else if ascii_lowercase(name) == "testnet"@ {
        Some(Network::Testnet)
    } else {
        None
    }
}

/// The network that arguments choose: the one named after the first `--network` that is
/// followed by the name of a network; the test network where there is none.
pub open spec fn network_of_args(args: Seq<Seq<char>>) -> Network
    decreases args.len(),
{
    if args.len() < 2 {
        Network::Testnet
    } else if args[0] == "--network"@ && network_named(args[1]) is Some {
        network_named(args[1])->0
    } else {
        network_of_args(args.drop_first())
    }
}

/// The texts of arguments.
pub open spec fn texts_of(args: Seq<String>) -> Seq<Seq<char>> {
    Seq::new(args.len(), |i: int| args[i]@)
}

/// Whether two sequences of characters are the same.
fn same_chars(a: &Vec<char>, b: &Vec<char>) -> (r: bool)
    ensures
        r == (a@ == b@),
{
    if a.len() != b.len() {
        return false;
    }
    let mut i: usize = 0;
    while i < a.len()
        invariant
            i <= a@.len(),
            a@.len() == b@.len(),
            forall|j: int| 0 <= j < i ==> a@[j] == b@[j],
        decreases a@.len() - i,
    {
        if a[i] != b[i] {
            return false;
        }
        i = i + 1;
    }
    assert(a@ =~= b@);
    true
}

/// The characters of a text with the letters `A` to `Z` turned to lower case.
fn lowercase_chars(text: &str) -> (r: Vec<char>)
    ensures
        r@ == ascii_lowercase(text@),
{
    let chars = chars_of(text);
    let mut out: Vec<char> = Vec::new();
    let mut i: usize = 0;
    while i < chars.len()
        invariant
            i <= chars@.len(),
            chars@ == text@,
            out@ == ascii_lowercase(text@).take(i as int),
        decreases chars@.len() - i,
    {
        let c = chars[i];
        let lower = if c >= 'A' && c <= 'Z' {
            ((c as u8) + 32) as char
        } else {
            c
        };
        out.push(lower);
        assert(out@ =~= ascii_lowercase(text@).take(i + 1));
        i = i + 1;
    }
    assert(ascii_lowercase(text@).take(chars@.len() as int) =~= ascii_lowercase(text@));
    out
}

impl Network {
    /// The network with the given name, `mainnet` or `testnet`, in any mix of upper and lower
    /// case; none for any other name.
    pub fn from_name(name: &str) -> (r: Option<Network>)
        ensures
            r == network_named(name@),
    {
        let lower = lowercase_chars(name);
        if same_chars(&lower, &chars_of("mainnet")) {
            Some(Network::Mainnet)
        } else if same_chars(&lower, &chars_of("testnet")) {
            Some(Network::Testnet)
        } else {
            None
        }
    }
}

/// The network that the arguments of a command line choose: the one named after the first
/// `--network` that is followed by `mainnet` or `testnet`, and the test network where no
/// argument chooses one.
pub fn parse_network(args: &[String]) -> (r: Network)
    ensures
        r == network_of_args(texts_of(args@)),
{
    let ghost texts = texts_of(args@);
    let flag = chars_of("--network");
    let mut i: usize = 0;
    proof {
        assert(texts.skip(0) =~= texts);
    }
    while i < args.len()
        invariant
            i <= args@.len(),
            texts == texts_of(args@),
            flag@ == "--network"@,
            network_of_args(texts) == network_of_args(texts.skip(i as int)),
        decreases args@.len() - i,
    {
        let ghost rest = texts.skip(i as int);
        proof {
            assert(rest.drop_first() =~= texts.skip(i + 1));
            assert(rest[0] == args@[i as int]@);
        }
        if i + 1 < args.len() {
            proof {
                assert(rest[1] == args@[i + 1]@);
            }
            if same_chars(&chars_of(args[i].as_str()), &flag) {
                match Network::from_name(args[i + 1].as_str()) {
                    Some(network) => {
                        return network;
                    },
                    None => {},
                }
            }
        }
        i = i + 1;
    }
    proof {
        assert(texts.skip(i as int).len() == 0);
    }
    Network::Testnet
}

} // verus!
