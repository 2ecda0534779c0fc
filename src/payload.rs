use vstd::prelude::*;

verus! {

/// Extra data carried by a notification.
#[derive(PartialEq, Debug)]
pub struct MessagePayloadData {
    /// URL to open when the notification is clicked.
    pub action: String,
}

/// The notification that is pushed to every subscriber of a channel.
#[derive(PartialEq, Debug)]
pub struct MessagePayload {
    pub message: String,
    pub vibrate: bool,
    pub silent: bool,
    pub channel: String,
    pub data: MessagePayloadData,
}

/// The payload holds the given text, channel and action, and the fixed display
/// flags: it neither vibrates nor stays silent.
pub open spec fn payload_is(
    p: MessagePayload,
    message: Seq<char>,
    channel: Seq<char>,
    action: Seq<char>,
) -> bool {
    &&& p.message@ == message
    &&& p.channel@ == channel
    &&& p.data.action@ == action
    &&& !p.vibrate
    &&& !p.silent
}

/// What a form-urlencoded text decodes to: its `(key, value)` pairs in order, or
/// `None` where the decoder reports an error.
pub uninterp spec fn form_pairs_of(text: Seq<char>) -> Option<Seq<(Seq<char>, Seq<char>)>>;

/// Relies on `serde_urlencoded::from_str` into a `Vec<(String, String)>`: the
/// percent- and plus-decoded pairs of the text, which depend on the text alone.
#[verifier::external_body]
fn decode_form_pairs(text: &str) -> (r: Option<Vec<(String, String)>>)
    ensures
        match r {
            Some(pairs) => form_pairs_of(text@) == Some(pairs.deep_view()),
            None => form_pairs_of(text@) is None,
        },
{
    serde_urlencoded::from_str::<Vec<(String, String)>>(text).ok()
}

/// How many of the pairs carry the key.
pub open spec fn key_count(pairs: Seq<(Seq<char>, Seq<char>)>, key: Seq<char>) -> nat
    decreases pairs.len(),
{
    if pairs.len() == 0 {
        0
    } else {
        key_count(pairs.drop_last(), key) + if pairs.last().0 == key { 1nat } else { 0nat }
    }
}

/// The value of the last pair that carries the key.
pub open spec fn key_value(pairs: Seq<(Seq<char>, Seq<char>)>, key: Seq<char>) -> Option<Seq<char>>
    decreases pairs.len(),
{
    if pairs.len() == 0 {
        None
    } else if pairs.last().0 == key {
        Some(pairs.last().1)
    } else {
        key_value(pairs.drop_last(), key)
    }
}

pub open spec fn message_key() -> Seq<char> {
    seq!['m', 'e', 's', 's', 'a', 'g', 'e']
}

pub open spec fn action_key() -> Seq<char> {
    seq!['a', 'c', 't', 'i', 'o', 'n']
}

/// The fields of a message form: a `message` field exactly once and an
/// `action` field at most once; any other key is ignored. `None` where the
/// pairs do not make such a form.
pub open spec fn form_fields(pairs: Seq<(Seq<char>, Seq<char>)>) -> Option<(Seq<char>, Option<Seq<char>>)> {
    if key_count(pairs, message_key()) == 1 && key_count(pairs, action_key()) <= 1 {
        Some((key_value(pairs, message_key()).unwrap(), key_value(pairs, action_key())))
    } else {
        None
    }
}


proof fn lemma_counted_key_has_value(pairs: Seq<(Seq<char>, Seq<char>)>, key: Seq<char>)
    requires
        key_count(pairs, key) > 0,
    ensures
        key_value(pairs, key) is Some,
    decreases pairs.len(),
{
    if pairs.len() > 0 && pairs.last().0 != key {
        lemma_counted_key_has_value(pairs.drop_last(), key);
    }
}

/// Picks the `message` and `action` fields out of decoded form pairs.
pub fn message_form(pairs: &Vec<(String, String)>) -> (r: Option<(String, Option<String>)>)
    ensures
        r.deep_view() == form_fields(pairs.deep_view()),
{
    let ghost all = pairs.deep_view();
    let message_name = String::from_str("message");
    let action_name = String::from_str("action");
    proof {
        reveal_strlit("message");
        reveal_strlit("action");
        assert(message_name@ =~= message_key());
        assert(action_name@ =~= action_key());
    }
    let mut message_count: usize = 0;
    let mut action_count: usize = 0;
    let mut message: Option<String> = None;
    let mut action: Option<String> = None;
    let mut i: usize = 0;
    while i < pairs.len()
        invariant
            i <= pairs.len(),
            all == pairs.deep_view(),
            message_name@ == message_key(),
            action_name@ == action_key(),
            message_count as nat == key_count(all.subrange(0, i as int), message_key()),
            action_count as nat == key_count(all.subrange(0, i as int), action_key()),
            message.deep_view() == key_value(all.subrange(0, i as int), message_key()),
            action.deep_view() == key_value(all.subrange(0, i as int), action_key()),
            message_count <= i,
            action_count <= i,
        decreases pairs.len() - i,
    {
        let ghost before = all.subrange(0, i as int);
        let ghost after = all.subrange(0, i as int + 1);
        assert(after.drop_last() =~= before);
        assert(after.last() == all[i as int]);
        assert(all[i as int] == pairs@[i as int].deep_view());
        let key = &pairs[i].0;
        if *key == message_name {
            message_count = message_count + 1;
            message = Some(pairs[i].1.clone());
        }
        if *key == action_name {
            action_count = action_count + 1;
            action = Some(pairs[i].1.clone());
        }
        i = i + 1;
    }
    assert(all.subrange(0, pairs.len() as int) =~= all);
    if message_count > 0 {
        proof {
            lemma_counted_key_has_value(all, message_key());
        }
    }
    if message_count == 1 && action_count <= 1 {
        match message {
            Some(text) => Some((text, action)),
            None => None,
        }
    } else {
        None
    }
}


/// The message text and the action URL of a raw message, given what its text
/// decodes to as a form: the form's fields where it is a message form, with
/// the default action where it names none; else the raw text itself.
pub open spec fn message_and_action(
    raw: Seq<char>,
    decoded: Option<Seq<(Seq<char>, Seq<char>)>>,
    default_action: Seq<char>,
) -> (Seq<char>, Seq<char>) {
    match decoded {
        Some(pairs) => match form_fields(pairs) {
            Some((message, Some(action))) => (message, action),
            Some((message, None)) => (message, default_action),
            None => (raw, default_action),
        },
        None => (raw, default_action),
    }
}

impl MessagePayload {
    /// Builds the payload of a raw message from the pairs its text decoded to
    /// (`None` where it did not decode).
    pub fn from_decoded(
        raw: &str,
        decoded: Option<Vec<(String, String)>>,
        channel: &str,
        default_action: &str,
    ) -> (r: MessagePayload)
        ensures
            payload_is(
                r,
                message_and_action(raw@, decoded.deep_view(), default_action@).0,
                channel@,
                message_and_action(raw@, decoded.deep_view(), default_action@).1,
            ),
    {
        let fields = match &decoded {
            Some(pairs) => message_form(pairs),
            None => None,
        };
        let (message, action) = match fields {
            Some((message, Some(action))) => (message, action),
            Some((message, None)) => (message, String::from_str(default_action)),
            None => (String::from_str(raw), String::from_str(default_action)),
        };
        MessagePayload {
            message,
            vibrate: false,
            silent: false,
            channel: String::from_str(channel),
            data: MessagePayloadData { action },
        }
    }

    /// Builds the payload of a raw message sent to a channel. The text may be a
    /// form with a `message` field and an optional `action` field; where it is
    /// not, the whole text is the message and the action is the default one.
    pub fn parse_new(message: &str, channel: &str, default_action: &str) -> (r: MessagePayload)
        ensures
            payload_is(
                r,
                message_and_action(message@, form_pairs_of(message@), default_action@).0,
                channel@,
                message_and_action(message@, form_pairs_of(message@), default_action@).1,
            ),
    {
        let decoded = decode_form_pairs(message);
        MessagePayload::from_decoded(message, decoded, channel, default_action)
    }
}

} // verus!
