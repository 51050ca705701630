//! The environment that the boundary works in: one facade and one client for
//! each network, each built on first use and handed out as a copy from then
//! on. The environment is an ordinary value that its owner passes along;
//! nothing here is global.

use vstd::prelude::*;
use crate::client::PubkyHttpClient;
use crate::keys::Keypair;
use crate::session::PubkySigner;
use crate::storage::PublicStorage;

verus! {

/// The facade: a client, and the actors that work through it.
pub struct Pubky<E> {
    /// The client that routes every request.
    pub client: PubkyHttpClient<E>,
}

impl<E: Clone> Clone for PubkyHttpClient<E> {
    fn clone(&self) -> (copy: PubkyHttpClient<E>)
        ensures
            cloned(self.http, copy.http),
            cloned(self.icann_http, copy.icann_http),
    {
        PubkyHttpClient { http: self.http.clone(), icann_http: self.icann_http.clone() }
    }
}

impl<E: Clone> Clone for Pubky<E> {
    fn clone(&self) -> (copy: Pubky<E>)
        ensures
            cloned(self.client.http, copy.client.http),
            cloned(self.client.icann_http, copy.client.icann_http),
    {
        Pubky { client: self.client.clone() }
    }
}

impl<E> Pubky<E> {
    /// The facade over a client.
    pub fn new(client: PubkyHttpClient<E>) -> (pubky: Pubky<E>)
        ensures
            pubky.client == client,
    {
        Pubky { client }
    }

    /// A signer for `keypair`.
    pub fn signer(&self, keypair: Keypair) -> (signer: PubkySigner)
        ensures
            signer.keypair() == keypair,
    {
        PubkySigner::new(keypair)
    }

    /// Public storage.
    pub fn public_storage(&self) -> PublicStorage {
        PublicStorage::new()
    }
}

/// The environment: what has been built so far, for each network.
pub struct Environment<E> {
    /// The facade for the main network.
    pub pubky: Option<Pubky<E>>,
    /// The facade for the test network.
    pub pubky_testnet: Option<Pubky<E>>,
    /// The client for the main network.
    pub http_client: Option<PubkyHttpClient<E>>,
    /// The client for the test network.
    pub http_client_testnet: Option<PubkyHttpClient<E>>,
}

impl<E> Environment<E> {
    /// An environment in which nothing has been built yet.
    pub fn new() -> (env: Environment<E>)
        ensures
            env.pubky is None,
            env.pubky_testnet is None,
            env.http_client is None,
            env.http_client_testnet is None,
    {
        Environment { pubky: None, pubky_testnet: None, http_client: None, http_client_testnet: None }
    }
}

/// What a slot and the answer must be after a value was asked of the slot:
/// a slot that was filled is unchanged and answers a copy of what it holds;
/// an empty slot is filled with what the builder made, and answers a copy of
/// it, or stays empty and answers the builder's error.
pub open spec fn filled<T: Clone, F: FnOnce() -> Result<T, String>>(
    before: Option<T>,
    build: F,
    after: Option<T>,
    answer: Result<T, String>,
) -> bool {
    match before {
        Some(held) => after == before && (answer matches Ok(copy) && cloned(held, copy)),
        None => exists|made: Result<T, String>| #[trigger]
            call_ensures(build, (), made) && match made {
                Ok(value) => after == Some(value) && (answer matches Ok(copy) && cloned(
                    value,
                    copy,
                )),
                Err(message) => after is None && answer == Err::<T, String>(message),
            },
    }
}

/// Answers a copy of what `slot` holds, after filling it by `build` where it
/// is empty.
pub fn get_or_build<T: Clone, F: FnOnce() -> Result<T, String>>(slot: &mut Option<T>, build: F) -> (answer:
    Result<T, String>)
    requires
        call_requires(build, ()),
    ensures
        filled(*old(slot), build, *final(slot), answer),
{
    match slot {
        Some(held) => Ok(held.clone()),
        None => {
            let made = build();
            assert(call_ensures(build, (), made));
            match made {
                Ok(value) => {
                    let copy = value.clone();
                    *slot = Some(value);
                    Ok(copy)
                },
                Err(message) => Err(message),
            }
        },
    }
}

/// The facade for the main network: built by `build` on first use, a copy of
/// the one that was built from then on. A failed build leaves the
/// environment as it was and answers the builder's error.
pub fn get_pubky<E: Clone, F: FnOnce() -> Result<Pubky<E>, String>>(
    env: &mut Environment<E>,
    build: F,
) -> (answer: Result<Pubky<E>, String>)
    requires
        call_requires(build, ()),
    ensures
        filled(old(env).pubky, build, final(env).pubky, answer),
        final(env).pubky_testnet == old(env).pubky_testnet,
        final(env).http_client == old(env).http_client,
        final(env).http_client_testnet == old(env).http_client_testnet,
{
    get_or_build(&mut env.pubky, build)
}

/// The facade for the test network, as `get_pubky` for the main network.
pub fn get_pubky_testnet<E: Clone, F: FnOnce() -> Result<Pubky<E>, String>>(
    env: &mut Environment<E>,
    build: F,
) -> (answer: Result<Pubky<E>, String>)
    requires
        call_requires(build, ()),
    ensures
        filled(old(env).pubky_testnet, build, final(env).pubky_testnet, answer),
        final(env).pubky == old(env).pubky,
        final(env).http_client == old(env).http_client,
        final(env).http_client_testnet == old(env).http_client_testnet,
{
    get_or_build(&mut env.pubky_testnet, build)
}

/// The client for the main network, as `get_pubky` for the facade.
pub fn get_http_client<E: Clone, F: FnOnce() -> Result<PubkyHttpClient<E>, String>>(
    env: &mut Environment<E>,
    build: F,
) -> (answer: Result<PubkyHttpClient<E>, String>)
    requires
        call_requires(build, ()),
    ensures
        filled(old(env).http_client, build, final(env).http_client, answer),
        final(env).pubky == old(env).pubky,
        final(env).pubky_testnet == old(env).pubky_testnet,
        final(env).http_client_testnet == old(env).http_client_testnet,
{
    get_or_build(&mut env.http_client, build)
}

/// The client for the test network, as `get_pubky` for the facade.
pub fn get_http_client_testnet<E: Clone, F: FnOnce() -> Result<PubkyHttpClient<E>, String>>(
    env: &mut Environment<E>,
    build: F,
) -> (answer: Result<PubkyHttpClient<E>, String>)
    requires
        call_requires(build, ()),
    ensures
        filled(old(env).http_client_testnet, build, final(env).http_client_testnet, answer),
        final(env).pubky == old(env).pubky,
        final(env).pubky_testnet == old(env).pubky_testnet,
        final(env).http_client == old(env).http_client,
{
    get_or_build(&mut env.http_client_testnet, build)
}

} // verus!
