//! What the Solana adapter makes of the RPC node's answers: the accounts it
//! keeps from a lookup of several addresses, and the accounts it decodes
//! from a program listing. The RPC calls are the caller's part; decoding an
//! account's bytes into a typed account is the program client's part, and
//! its outcome is handed in.

use vstd::prelude::*;
use crate::chain::Pubkey;
use base64::Engine;

verus! {

/// The error of a lookup: the account at this address did not decode.
#[derive(Clone, Copy, Debug)]
pub struct DecodeFailure {
    pub address: Pubkey,
}

/// The accounts that a lookup of several addresses keeps, in order of the
/// addresses: the ones that exist, decoded; the first existing account that
/// does not decode fails the whole lookup.
pub open spec fn collected<T>(addresses: Seq<Pubkey>, found: Seq<Option<Result<T, ()>>>) -> Result<Seq<(Pubkey, T)>, Pubkey>
    decreases found.len(),
{
    if found.len() == 0 {
        Ok(seq![])
    } else {
        let n = (found.len() - 1) as int;
        match collected(addresses.take(n), found.take(n)) {
            Err(a) => Err(a),
            Ok(kept) => match found[n] {
                None => Ok(kept),
                Some(Err(_)) => Err(addresses[n]),
                Some(Ok(t)) => Ok(kept.push((addresses[n], t))),
            },
        }
    }
}

proof fn lemma_collected_err_persists<T>(addresses: Seq<Pubkey>, found: Seq<Option<Result<T, ()>>>, k: int, a: Pubkey)
    requires
        0 <= k <= found.len(),
        found.len() == addresses.len(),
        collected(addresses.take(k), found.take(k)) == Err::<Seq<(Pubkey, T)>, Pubkey>(a),
    ensures
        collected(addresses, found) == Err::<Seq<(Pubkey, T)>, Pubkey>(a),
    decreases found.len() - k,
{
    if k == found.len() {
        assert(addresses.take(k) =~= addresses);
        assert(found.take(k) =~= found);
    } else {
        assert(addresses.take(k + 1).take(k) =~= addresses.take(k));
        assert(found.take(k + 1).take(k) =~= found.take(k));
        lemma_collected_err_persists(addresses, found, k + 1, a);
    }
}

/// The accounts that exist among those looked up, decoded, with their
/// addresses; `found[i]` is the decoding of the account at `addresses[i]`,
/// `None` where there is no account.
pub fn collect_accounts<T>(addresses: &Vec<Pubkey>, found: Vec<Option<Result<T, ()>>>) -> (r: Result<Vec<(Pubkey, T)>, DecodeFailure>)
    requires
        found@.len() == addresses@.len(),
    ensures
        r matches Ok(v) ==> collected(addresses@, found@) == Ok::<Seq<(Pubkey, T)>, Pubkey>(v@),
        r matches Err(e) ==> collected(addresses@, found@) == Err::<Seq<(Pubkey, T)>, Pubkey>(e.address),
{
    let ghost all = found@;
    let n = found.len();
    assert(found@.subrange(0, n as int) =~= found@);
    let mut kept: Vec<(Pubkey, T)> = Vec::new();
    let mut rest = found;
    let mut i: usize = 0;
    while i < n
        invariant
            all == found@,
            n == all.len() == addresses@.len(),
            i <= n,
            rest@ == all.subrange(i as int, n as int),
            collected(addresses@.take(i as int), all.take(i as int)) == Ok::<Seq<(Pubkey, T)>, Pubkey>(kept@),
        decreases n - i,
    {
        let item = rest.remove(0);
        assert(item == all[i as int]);
        assert(rest@ =~= all.subrange(i + 1, n as int));
        assert(addresses@.take(i + 1).take(i as int) =~= addresses@.take(i as int));
        assert(all.take(i + 1).take(i as int) =~= all.take(i as int));
        match item {
            None => {},
            Some(Err(_)) => {
                proof {
                    let ai = addresses@.take(i + 1);
                    let fi = all.take(i + 1);
                    assert(fi[i as int] == all[i as int]);
                    assert(ai.take(i as int) =~= addresses@.take(i as int));
                    lemma_collected_err_persists(addresses@, all, i + 1, addresses@[i as int]);
                }
                let e = DecodeFailure { address: addresses[i] };
                return Err(e);
            },
            Some(Ok(t)) => {
                kept.push((addresses[i], t));
            },
        }
        i = i + 1;
    }
    assert(addresses@.take(n as int) =~= addresses@);
    assert(all.take(n as int) =~= all);
    Ok(kept)
}

/// The account of a single-address lookup: the first account kept.
pub fn first_account<T>(kept: Vec<(Pubkey, T)>) -> (r: Option<T>)
    ensures
        kept@.len() == 0 ==> r is None,
        kept@.len() > 0 ==> r == Some(kept@[0].1),
{
    if kept.len() == 0 {
        None
    } else {
        let mut kept = kept;
        let (_, t) = kept.remove(0);
        Some(t)
    }
}

/// The result of looking up a single address, as the lookup of a list of
/// that one address gives it: nothing where there is no account, the
/// decoded account, or the decoding failure at that address.
pub open spec fn looked_up<T>(address: Pubkey, found: Option<Result<T, ()>>) -> Result<Option<T>, Pubkey> {
    match found {
        None => Ok(None),
        Some(Ok(t)) => Ok(Some(t)),
        Some(Err(_)) => Err(address),
    }
}

/// The account at one address: the lookup of the list of that address
/// alone, then its first account kept. `found` is the decoding of the
/// account there, `None` where there is no account.
pub fn lookup_account<T>(address: Pubkey, found: Option<Result<T, ()>>) -> (r: Result<Option<T>, DecodeFailure>)
    ensures
        r matches Ok(o) ==> looked_up(address, found) == Ok::<Option<T>, Pubkey>(o),
        r matches Err(e) ==> looked_up(address, found) == Err::<Option<T>, Pubkey>(e.address),
        r matches Ok(o) ==> (collected(seq![address], seq![found]) matches Ok(kept)
            && o == (if kept.len() > 0 { Some(kept[0].1) } else { None })),
        r matches Err(e) ==> collected(seq![address], seq![found]) == Err::<Seq<(Pubkey, T)>, Pubkey>(e.address),
{
    let mut addresses: Vec<Pubkey> = Vec::new();
    addresses.push(address);
    let mut list: Vec<Option<Result<T, ()>>> = Vec::new();
    list.push(found);
    assert(addresses@ =~= seq![address]);
    assert(list@ =~= seq![found]);
    proof {
        assert(seq![address].take(0) =~= Seq::<Pubkey>::empty());
        assert(seq![found].take(0) =~= Seq::<Option<Result<T, ()>>>::empty());
        assert(collected(Seq::<Pubkey>::empty(), Seq::<Option<Result<T, ()>>>::empty()) == Ok::<Seq<(Pubkey, T)>, Pubkey>(seq![]));
    }
    match collect_accounts(&addresses, list) {
        Ok(kept) => Ok(first_account(kept)),
        Err(e) => Err(e),
    }
}

/// The bytes that a text encodes in standard base64 with padding, `None`
/// where it is not such an encoding.
pub uninterp spec fn base64_decode(text: Seq<char>) -> Option<Seq<u8>>;

/// Calls `base64::engine::general_purpose::STANDARD.decode`: the decoded
/// bytes, named `base64_decode`.
#[verifier::external_body]
fn decode_base64(text: &str) -> (r: Option<Vec<u8>>)
    ensures
        match r {
            Some(v) => base64_decode(text@) == Some(v@),
            None => base64_decode(text@) is None,
        },
{
    base64::engine::general_purpose::STANDARD.decode(text).ok()
}

/// Account data as the RPC node sends it.
#[derive(Clone, Debug)]
pub enum UiAccountData {
    /// Base64 text of the account's bytes.
    Base64(String),
    /// Any other encoding, which the adapter does not read.
    Other,
}

/// The bytes of the listed accounts that the adapter reads: the ones sent
/// in base64 that decode, in order; the others are passed over.
pub open spec fn listed_bytes(items: Seq<(Pubkey, UiAccountData)>) -> Seq<(Pubkey, Seq<u8>)>
    decreases items.len(),
{
    if items.len() == 0 {
        seq![]
    } else {
        let (k, d) = items.last();
        listed_bytes(items.drop_last()) + match account_bytes(d) {
            Some(b) => seq![(k, b)],
            None => Seq::<(Pubkey, Seq<u8>)>::empty(),
        }
    }
}

pub open spec fn bytes_view(v: Seq<(Pubkey, Vec<u8>)>) -> Seq<(Pubkey, Seq<u8>)> {
    v.map_values(|p: (Pubkey, Vec<u8>)| (p.0, p.1@))
}

/// The bytes of one account's data: those of base64 text that decodes.
pub open spec fn account_bytes(d: UiAccountData) -> Option<Seq<u8>> {
    match d {
        UiAccountData::Base64(t) => base64_decode(t@),
        UiAccountData::Other => None,
    }
}

/// The bytes of one account's data, where the adapter reads them.
pub fn decode_account_data(d: &UiAccountData) -> (r: Option<Vec<u8>>)
    ensures
        match r {
            Some(v) => account_bytes(*d) == Some(v@),
            None => account_bytes(*d) is None,
        },
{
    match d {
        UiAccountData::Base64(t) => decode_base64(t.as_str()),
        UiAccountData::Other => None,
    }
}

/// The bytes of the accounts of a program listing.
pub fn decode_listed_accounts(items: &Vec<(Pubkey, UiAccountData)>) -> (r: Vec<(Pubkey, Vec<u8>)>)
    ensures
        bytes_view(r@) == listed_bytes(items@),
{
    let mut r: Vec<(Pubkey, Vec<u8>)> = Vec::new();
    let mut i: usize = 0;
    while i < items.len()
        invariant
            i <= items@.len(),
            bytes_view(r@) == listed_bytes(items@.take(i as int)),
        decreases items@.len() - i,
    {
        let ghost before = r@;
        assert(items@.take(i + 1).drop_last() =~= items@.take(i as int));
        assert(items@.take(i + 1).last() == items@[i as int]);
        let (k, d) = &items[i];
        match decode_account_data(d) {
            Some(b) => {
                r.push((*k, b));
                assert(bytes_view(r@) =~= bytes_view(before) + seq![(*k, r@.last().1@)]);
            },
            None => {},
        }
        assert(bytes_view(r@) =~= listed_bytes(items@.take(i + 1)));
        i = i + 1;
    }
    assert(items@.take(items@.len() as int) =~= items@);
    r
}

} // verus!
