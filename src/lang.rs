//! Translation lookup and the log lines built from translated templates.
use vstd::prelude::*;

use crate::batcher::texts;
use crate::server::{DistrictServer, PendingBatch, batch_view, send_outcome};
use crate::text::{decimal, replace, replace_all, to_decimal};

verus! {

/// Translated templates by key. A later entry for a key overrides an
/// earlier one.
#[derive(Debug)]
pub struct Translations {
    pub entries: Vec<(String, String)>,
}

/// The keys and templates of a list of entries.
pub open spec fn entry_texts(v: Seq<(String, String)>) -> Seq<(Seq<char>, Seq<char>)> {
    v.map_values(|e: (String, String)| (e.0@, e.1@))
}

/// The template of `key`: that of its last entry.
pub open spec fn lookup(s: Seq<(Seq<char>, Seq<char>)>, key: Seq<char>) -> Option<Seq<char>>
    decreases s.len(),
{
    if s.len() == 0 {
        None
    } else if s.last().0 == key {
        Some(s.last().1)
    } else {
        lookup(s.drop_last(), key)
    }
}

/// The text of an optional string.
pub open spec fn opt_text(o: Option<String>) -> Option<Seq<char>> {
    match o {
        Some(s) => Some(s@),
        None => None,
    }
}

impl View for Translations {
    type V = Seq<(Seq<char>, Seq<char>)>;

    open spec fn view(&self) -> Seq<(Seq<char>, Seq<char>)> {
        entry_texts(self.entries@)
    }
}

impl Translations {
    /// No translations.
    pub fn new() -> (r: Translations)
        ensures
            r@.len() == 0,
    {
        Translations { entries: Vec::new() }
    }

    /// Set the template of `key` to `value`.
    pub fn insert(&mut self, key: String, value: String)
        ensures
            final(self)@ == old(self)@.push((key@, value@)),
            lookup(final(self)@, key@) == Some(value@),
            forall|k: Seq<char>| k != key@ ==> lookup(final(self)@, k) == lookup(old(self)@, k),
    {
        let ghost before = self.entries@;
        let ghost (k0, v0) = (key@, value@);
        self.entries.push((key, value));
        assert(entry_texts(self.entries@) =~= entry_texts(before).push((k0, v0)));
        assert(entry_texts(self.entries@).drop_last() =~= entry_texts(before));
    }
}

/// The template of `key`, if there is one.
pub fn get_translation(data: &Translations, key: &str) -> (r: Option<String>)
    ensures
        opt_text(r) == lookup(data@, key@),
{
    let mut i: usize = data.entries.len();
    assert(data@.take(i as int) =~= data@);
    while i > 0
        invariant
            i <= data.entries@.len(),
            lookup(data@, key@) == lookup(data@.take(i as int), key@),
        decreases i,
    {
        let ghost t = data@.take(i as int);
        assert(t.drop_last() =~= data@.take(i - 1));
        assert(t.last() == (data.entries@[i - 1].0@, data.entries@[i - 1].1@));
        if data.entries[i - 1].0.as_str().unicode_len() == key.unicode_len() && same_text(
            data.entries[i - 1].0.as_str(),
            key,
        ) {
            return Some(data.entries[i - 1].1.clone());
        }
        i = i - 1;
    }
    None
}

/// Whether two strings hold the same characters.
pub fn same_text(a: &str, b: &str) -> (r: bool)
    ensures
        r == (a@ == b@),
{
    let n = a.unicode_len();
    if n != b.unicode_len() {
        return false;
    }
    let mut i: usize = 0;
    while i < n
        invariant
            n == a@.len(),
            n == b@.len(),
            i <= n,
            forall|k: int| 0 <= k < i ==> a@[k] == b@[k],
        decreases n - i,
    {
        if a.get_char(i) != b.get_char(i) {
            return false;
        }
        i = i + 1;
    }
    assert(a@ =~= b@);
    true
}

/// The template of a chat timestamp when no translation gives one.
pub const DEFAULT_TIMESTAMP: &'static str = "<t:{t}:R>";

/// The chat timestamp template that `lang` gives.
pub open spec fn timestamp_template(lang: Option<Seq<(Seq<char>, Seq<char>)>>) -> Seq<char> {
    match lang {
        Some(l) => match lookup(l, "utils.timestamp"@) {
            Some(t) => t,
            None => DEFAULT_TIMESTAMP@,
        },
        None => DEFAULT_TIMESTAMP@,
    }
}

/// The view of an optional borrowed set of translations.
pub open spec fn lang_view(lang: Option<&Translations>) -> Option<Seq<(Seq<char>, Seq<char>)>> {
    match lang {
        Some(l) => Some(l@),
        None => None,
    }
}

/// A chat timestamp of `now` (seconds since the epoch): the translated
/// template, or the default one, with `{t}` replaced by the number.
pub fn get_discord_timestamp(lang: Option<&Translations>, now: u64) -> (r: String)
    ensures
        r@ == replace_all(timestamp_template(lang_view(lang)), "{t}"@, decimal(now as nat)),
{
    let template = match lang {
        Some(l) => match get_translation(l, "utils.timestamp") {
            Some(t) => t,
            None => String::from_str(DEFAULT_TIMESTAMP),
        },
        None => String::from_str(DEFAULT_TIMESTAMP),
    };
    let n = to_decimal(now);
    replace(template.as_str(), "{t}", n.as_str())
}

/// A value that a log line can fill into its template.
#[derive(Debug)]
pub enum JsonValueNotObject {
    Null,
    Bool(bool),
    /// A number, as its JSON text.
    Number(String),
    String(String),
    Array(Vec<String>),
}

/// The lines of `s` with `sep` between each two.
pub open spec fn joined(s: Seq<Seq<char>>, sep: Seq<char>) -> Seq<char>
    decreases s.len(),
{
    if s.len() == 0 {
        Seq::empty()
    } else if s.len() == 1 {
        s[0]
    } else {
        joined(s.drop_last(), sep) + sep + s.last()
    }
}

/// The text that a value fills in.
pub open spec fn value_text_spec(v: JsonValueNotObject) -> Seq<char> {
    match v {
        JsonValueNotObject::Null => "null"@,
        JsonValueNotObject::Bool(b) => if b {
            "true"@
        } else {
            "false"@
        },
        JsonValueNotObject::Number(n) => n@,
        JsonValueNotObject::String(s) => s@,
        JsonValueNotObject::Array(a) => joined(texts(a@), ", "@),
    }
}

impl JsonValueNotObject {
    /// The text this value fills in: arrays are joined with commas.
    pub fn value_text(&self) -> (r: String)
        ensures
            r@ == value_text_spec(*self),
    {
        match self {
            JsonValueNotObject::Null => String::from_str("null"),
            JsonValueNotObject::Bool(b) => if *b {
                String::from_str("true")
            } else {
                String::from_str("false")
            },
            JsonValueNotObject::Number(n) => n.clone(),
            JsonValueNotObject::String(s) => s.clone(),
            JsonValueNotObject::Array(a) => {
                let ghost all = texts(a@);
                let mut out = String::new();
                let mut k: usize = 0;
                assert(out@ =~= joined(all.take(0), ", "@));
                while k < a.len()
                    invariant
                        all == texts(a@),
                        k <= a@.len(),
                        out@ == joined(all.take(k as int), ", "@),
                    decreases a.len() - k,
                {
                    let ghost next = all.take(k + 1);
                    assert(next.drop_last() =~= all.take(k as int));
                    if k > 0 {
                        out.append(", ");
                    }
                    out.append(a[k].as_str());
                    assert(out@ =~= joined(next, ", "@));
                    k = k + 1;
                }
                assert(all.take(a@.len() as int) =~= all);
                out
            },
        }
    }
}

/// The placeholder that the parameter `key` fills: the key in braces.
pub open spec fn placeholder(key: Seq<char>) -> Seq<char> {
    seq!['{'] + key + seq!['}']
}

/// `msg` with each parameter's placeholder replaced by its text, the
/// parameters taken in order.
pub open spec fn fill_params(msg: Seq<char>, ps: Seq<(Seq<char>, Seq<char>)>) -> Seq<char>
    decreases ps.len(),
{
    if ps.len() == 0 {
        msg
    } else {
        replace_all(fill_params(msg, ps.drop_last()), placeholder(ps.last().0), ps.last().1)
    }
}

/// The keys and value texts of a list of parameters.
pub open spec fn param_texts(v: Seq<(String, JsonValueNotObject)>) -> Seq<(Seq<char>, Seq<char>)> {
    v.map_values(|p: (String, JsonValueNotObject)| (p.0@, value_text_spec(p.1)))
}

/// The log line for the template `logs.<translation>`: the template (or its
/// key when it has none) after the timestamp and a colon, with the
/// parameters filled in. None when the template is empty.
pub open spec fn log_message_spec(
    lang: Seq<(Seq<char>, Seq<char>)>,
    translation: Seq<char>,
    timestamp: Seq<char>,
    params: Seq<(Seq<char>, Seq<char>)>,
) -> Option<Seq<char>> {
    let key = "logs."@ + translation;
    let template = match lookup(lang, key) {
        Some(t) => t,
        None => key,
    };
    if template.len() == 0 {
        None
    } else {
        Some(fill_params(timestamp + ": "@ + template, params))
    }
}

/// The log line that a template and its parameters make.
pub fn compose_log_message(
    lang: &Translations,
    translation: &str,
    timestamp: &str,
    params: &Vec<(String, JsonValueNotObject)>,
) -> (r: Option<String>)
    ensures
        opt_text(r) == log_message_spec(lang@, translation@, timestamp@, param_texts(params@)),
{
    let mut key = String::from_str("logs.");
    key.append(translation);
    let template = match get_translation(lang, key.as_str()) {
        Some(t) => t,
        None => key,
    };
    if template.as_str().unicode_len() == 0 {
        return None;
    }
    let mut msg = String::from_str(timestamp);
    msg.append(": ");
    msg.append(template.as_str());
    let ghost ps = param_texts(params@);
    let mut k: usize = 0;
    assert(ps.take(0) =~= Seq::<(Seq<char>, Seq<char>)>::empty());
    while k < params.len()
        invariant
            ps == param_texts(params@),
            k <= params@.len(),
            msg@ == fill_params(timestamp@ + ": "@ + template@, ps.take(k as int)),
        decreases params.len() - k,
    {
        let ghost next = ps.take(k + 1);
        assert(next.drop_last() =~= ps.take(k as int));
        let mut pat = String::from_str("{");
        pat.append(params[k].0.as_str());
        pat.append("}");
        proof {
            reveal_strlit("{");
            reveal_strlit("}");
        }
        assert(pat@ =~= placeholder(params@[k as int].0@));
        let v = params[k].1.value_text();
        msg = replace(msg.as_str(), pat.as_str(), v.as_str());
        k = k + 1;
    }
    assert(ps.take(params@.len() as int) =~= ps);
    Some(msg)
}

/// Handle a log line for `server`: compose it from the template and the
/// parameters, stamped with `now_secs`, and queue it as a notification at
/// `now_ms`. Returns the batch that this releases, if any.
pub fn handle_log_with_data(
    server: &mut DistrictServer,
    lang: &Translations,
    translation: &str,
    params: &Vec<(String, JsonValueNotObject)>,
    now_secs: u64,
    now_ms: u64,
) -> (r: Option<PendingBatch>)
    ensures
        ({
            let stamp = replace_all(
                timestamp_template(Some(lang@)),
                "{t}"@,
                decimal(now_secs as nat),
            );
            match log_message_spec(lang@, translation@, stamp, param_texts(params@)) {
                Some(m) => (texts(final(server).buffer@), batch_view(r)) == send_outcome(
                    old(server).channel_id@,
                    texts(old(server).buffer@),
                    old(server).last_sent,
                    m,
                    now_ms,
                ),
                None => r is None && final(server).buffer == old(server).buffer,
            }
        }),
        final(server).last_sent == old(server).last_sent,
        final(server).status == old(server).status,
        final(server).ws_msgs == old(server).ws_msgs,
        final(server).channel_id == old(server).channel_id,
        final(server).id == old(server).id,
{
    let stamp = get_discord_timestamp(Some(lang), now_secs);
    match compose_log_message(lang, translation, stamp.as_str(), params) {
        Some(m) => server.send_message(m, now_ms),
        None => None,
    }
}

} // verus!
