use vstd::prelude::*;

use governor::clock::DefaultClock;
use governor::state::keyed::DashMapStateStore;
use governor::{Quota, RateLimiter};

verus! {

/// `governor::Quota`, the burst size and replenish interval of one bucket,
/// carried through as an opaque value.
#[verifier::external_type_specification]
#[verifier::external_body]
pub struct ExQuota(Quota);

/// The client identity of a request with no forwarded-for address.
pub open spec fn unknown_client() -> Seq<char> {
    seq!['u', 'n', 'k', 'n', 'o', 'w', 'n']
}

/// The identity that a request is rate limited under: the address it was
/// forwarded for, or `unknown` where it carries none.
pub open spec fn client_identity_spec(forwarded_for: Option<Seq<char>>) -> Seq<char> {
    match forwarded_for {
        Some(address) => address,
        None => unknown_client(),
    }
}

/// The identity that a request is rate limited under.
pub fn client_identity(forwarded_for: Option<&str>) -> (r: String)
    ensures
        r@ == client_identity_spec(
            match forwarded_for {
                Some(a) => Some(a@),
                None => None,
            },
        ),
{
    match forwarded_for {
        Some(address) => String::from_str(address),
        None => {
            let s = String::from_str("unknown");
            proof {
                reveal_strlit("unknown");
                assert(s@ =~= unknown_client());
            }
            s
        },
    }
}

/// A `governor` rate limiter with one bucket per key, backed by a concurrent
/// map: buckets are made when their key is first seen and live in process
/// memory.
#[verifier::external_body]
struct KeyedLimiter {
    limiter: RateLimiter<String, DashMapStateStore<String>, DefaultClock>,
}

impl KeyedLimiter {
    /// Relies on `governor::RateLimiter::dashmap`: a keyed limiter that gives
    /// each key its own bucket of the quota.
    #[verifier::external_body]
    fn new(quota: Quota) -> KeyedLimiter {
        KeyedLimiter { limiter: RateLimiter::dashmap(quota) }
    }

    /// Relies on `governor::RateLimiter::check_key`: takes one cell from the
    /// key's bucket where one is left, atomically. Whether one is depends on
    /// the clock, so nothing is stated of the answer.
    #[verifier::external_body]
    fn take_cell(&self, key: &String) -> bool {
        self.limiter.check_key(key).is_ok()
    }
}

/// Admission control in front of the store-touching requests: one token
/// bucket of the quota per client identity, kept in process memory.
pub struct AdmissionControl {
    limiter: KeyedLimiter,
    quota: Quota,
}

/// Why admission control refused a request.
#[derive(Clone, Debug)]
pub struct Rejection {
    /// The identity whose quota is spent.
    pub client: String,
}

/// What admission control answers for a client, given whether a cell could be
/// taken from its bucket: the request goes through exactly when one was.
pub fn admission_verdict(client: String, cell_taken: bool) -> (r: Result<String, Rejection>)
    ensures
        cell_taken ==> r == Ok::<String, Rejection>(client),
        !cell_taken ==> (r matches Err(rejection) && rejection.client == client),
{
    if cell_taken {
        Ok(client)
    } else {
        Err(Rejection { client })
    }
}

impl AdmissionControl {
    pub fn new(quota: Quota) -> (r: AdmissionControl)
        ensures
            r.quota() == quota,
    {
        AdmissionControl { limiter: KeyedLimiter::new(quota), quota }
    }

    pub closed spec fn quota(&self) -> Quota {
        self.quota
    }

    /// The quota that each client identity gets.
    pub fn configured_quota(&self) -> (r: Quota)
        ensures
            r == self.quota(),
    {
        self.quota
    }

    /// Lets a request through or refuses it, by the address it was forwarded for. A
    /// refusal names the identity that was charged; a request let through has
    /// spent one cell of that identity's bucket.
    pub fn check_request(&self, forwarded_for: Option<&str>) -> (r: Result<String, Rejection>)
        ensures
            match r {
                Ok(client) => client@ == client_identity_spec(
                    match forwarded_for {
                        Some(a) => Some(a@),
                        None => None,
                    },
                ),
                Err(rejection) => rejection.client@ == client_identity_spec(
                    match forwarded_for {
                        Some(a) => Some(a@),
                        None => None,
                    },
                ),
            },
    {
        let client = client_identity(forwarded_for);
        let cell_taken = self.limiter.take_cell(&client);
        admission_verdict(client, cell_taken)
    }
}

} // verus!
