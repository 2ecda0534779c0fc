use vstd::prelude::*;
use vstd::string::StrSliceExecFns;

verus! {

/// How many subscribers one message is delivered to: a send reads a single
/// page of subscriptions of this size.
pub const SUBSCRIBER_PAGE_SIZE: usize = 10;

/// How many of a channel's latest messages its info lists.
pub const MESSAGE_PAGE_SIZE: usize = 10;

/// How long one delivery may take, in seconds, before it counts as timed out.
pub const DELIVERY_TIMEOUT_SECS: u64 = 10;

/// How many store-touching requests one client may make per minute.
pub const MAX_REQUESTS_PER_MINUTE: u32 = 20;

/// Why the service could not be configured.
#[derive(Clone, Copy, PartialEq, Eq, Debug)]
pub enum ConfigError {
    /// The VAPID private key is not URL-safe base64.
    InvalidPrivateKey,
}

/// What a text decodes to as URL-safe base64 (with padding), or `None` where
/// it is not such base64.
pub uninterp spec fn url_safe_base64_decoded(text: Seq<char>) -> Option<Seq<u8>>;

/// Relies on `base64::decode_config` with `base64::URL_SAFE`: the bytes that a
/// text encodes, which depend on the text alone.
#[verifier::external_body]
fn decode_url_safe_base64(text: &str) -> (r: Option<Vec<u8>>)
    ensures
        match r {
            Some(bytes) => url_safe_base64_decoded(text@) == Some(bytes@),
            None => url_safe_base64_decoded(text@) is None,
        },
{
    base64::decode_config(text, base64::URL_SAFE).ok()
}

/// The settings that every request handler reads: where the service is
/// reachable, the VAPID key pair that signs pushes, and the fan-out page size.
#[derive(Clone, Debug)]
pub struct ServiceConfig {
    pub server_base: String,
    pub vapid_pubkey: String,
    pub vapid_privkey: Vec<u8>,
    pub subscriber_page_size: usize,
}

pub open spec fn channel_page_path() -> Seq<char> {
    seq!['/', 'c', '/']
}

pub open spec fn service_worker_path() -> Seq<char> {
    seq![
        '/', 's', 't', 'a', 't', 'i', 'c', '/', 's', 'e', 'r', 'v', 'i', 'c', 'e', '-', 'w', 'o',
        'r', 'k', 'e', 'r', '.', 'j', 's',
    ]
}

/// Letters and digits of ASCII.
pub open spec fn is_ascii_alphanumeric(c: char) -> bool {
    ('a' <= c <= 'z') || ('A' <= c <= 'Z') || ('0' <= c <= '9')
}

/// A channel id that the short address of a channel page may carry: more than
/// six characters, all ASCII letters or digits.
pub open spec fn is_redirectable(channel_id: Seq<char>) -> bool {
    &&& channel_id.len() > 6
    &&& forall|i: int| 0 <= i < channel_id.len() ==> is_ascii_alphanumeric(#[trigger] channel_id[i])
}

impl ServiceConfig {
    /// The configuration from its settings, the private key given as URL-safe
    /// base64; it fails exactly where that key does not decode.
    pub fn new(server_base: &str, vapid_pubkey: &str, vapid_privkey_base64: &str) -> (r: Result<ServiceConfig, ConfigError>)
        ensures
            match url_safe_base64_decoded(vapid_privkey_base64@) {
                Some(key) => r matches Ok(c) && c.server_base@ == server_base@ && c.vapid_pubkey@
                    == vapid_pubkey@ && c.vapid_privkey@ == key && c.subscriber_page_size
                    == SUBSCRIBER_PAGE_SIZE,
                None => r == Err::<ServiceConfig, ConfigError>(ConfigError::InvalidPrivateKey),
            },
    {
        match decode_url_safe_base64(vapid_privkey_base64) {
            Some(vapid_privkey) => Ok(
                ServiceConfig {
                    server_base: String::from_str(server_base),
                    vapid_pubkey: String::from_str(vapid_pubkey),
                    vapid_privkey,
                    subscriber_page_size: SUBSCRIBER_PAGE_SIZE,
                },
            ),
            None => Err(ConfigError::InvalidPrivateKey),
        }
    }

    pub open spec fn endpoint_url_spec(self, channel_id: Seq<char>) -> Seq<char> {
        self.server_base@ + seq!['/'] + channel_id
    }

    pub open spec fn channel_page_url_spec(self, channel_id: Seq<char>) -> Seq<char> {
        self.server_base@ + channel_page_path() + channel_id
    }

    /// The address that messages for the channel are posted to.
    pub fn endpoint_url(&self, channel_id: &str) -> (r: String)
        ensures
            r@ == self.endpoint_url_spec(channel_id@),
    {
        let url = self.server_base.clone().concat("/");
        proof {
            reveal_strlit("/");
            assert("/"@ =~= seq!['/']);
        }
        url.concat(channel_id)
    }

    /// The address of the channel's web page.
    pub fn channel_page_url(&self, channel_id: &str) -> (r: String)
        ensures
            r@ == self.channel_page_url_spec(channel_id@),
    {
        let url = self.server_base.clone().concat("/c/");
        proof {
            reveal_strlit("/c/");
            assert("/c/"@ =~= channel_page_path());
        }
        url.concat(channel_id)
    }

    /// The address that the service worker script is served from.
    pub fn service_worker_url(&self) -> (r: String)
        ensures
            r@ == self.server_base@ + service_worker_path(),
    {
        let url = self.server_base.clone().concat("/static/service-worker.js");
        proof {
            reveal_strlit("/static/service-worker.js");
            assert("/static/service-worker.js"@ =~= service_worker_path());
        }
        url
    }

    /// Where a short channel address redirects to: the channel's page where the
    /// id looks like a channel id, else nowhere.
    pub fn redirect_target(&self, channel_id: &str) -> (r: Option<String>)
        ensures
            is_redirectable(channel_id@) ==> (r matches Some(url) && url@
                == self.channel_page_url_spec(channel_id@)),
            !is_redirectable(channel_id@) ==> r is None,
    {
        let n = channel_id.unicode_len();
        if n <= 6 {
            return None;
        }
        let mut i: usize = 0;
        while i < n
            invariant
                n == channel_id@.len(),
                i <= n,
                forall|k: int| 0 <= k < i ==> is_ascii_alphanumeric(#[trigger] channel_id@[k]),
            decreases n - i,
        {
            let c = channel_id.get_char(i);
            if !(('a' <= c && c <= 'z') || ('A' <= c && c <= 'Z') || ('0' <= c && c <= '9')) {
                return None;
            }
            i = i + 1;
        }
        Some(self.channel_page_url(channel_id))
    }
}

} // verus!
