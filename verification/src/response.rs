//! The normal form of a response: status, headers as a multimap, the body as
//! text, its size, and the time that the exchange took.

use crate::headers::{as_texts, header_map_entries, header_pairs, RawHeader};
use crate::multimap::{lemma_values_named_empty, lemma_values_named_push, multimap, values_named};
use crate::text::{decode_lossy, text_of_bytes};
use http::header::{HeaderMap, HeaderValue};
use vstd::prelude::*;
use vstd::string::*;
use vstd::utf8::encode_utf8;

verus! {

/// One header name of a response with all the values that came under it, in
/// the order in which they came.
#[derive(Clone, Debug)]
pub struct HeaderEntry {
    pub name: String,
    pub values: Vec<String>,
}

/// The headers of a response: a multimap from name to values.
#[derive(Clone, Debug)]
pub struct ResponseHeaders {
    pub entries: Vec<HeaderEntry>,
}

impl ResponseHeaders {
    /// Some entry carries `name`.
    pub open spec fn has(&self, name: Seq<char>) -> bool {
        exists|i: int| 0 <= i < self.entries.len() && (#[trigger] self.entries[i]).name@ == name
    }

    /// The place of an entry that carries `name`.
    pub open spec fn index_of(&self, name: Seq<char>) -> int {
        choose|i: int| 0 <= i < self.entries.len() && (#[trigger] self.entries[i]).name@ == name
    }

    /// No name has two entries, and no entry is without a value.
    pub open spec fn wf(&self) -> bool {
        &&& forall|i: int, j: int|
            0 <= i < j < self.entries.len() ==> (#[trigger] self.entries[i]).name@ != (
            #[trigger] self.entries[j]).name@
        &&& forall|i: int|
            0 <= i < self.entries.len() ==> (#[trigger] self.entries[i]).values.len() > 0
    }

    /// The values that came under `name`, if any did.
    pub fn get(&self, name: &str) -> (values: Option<&Vec<String>>)
        requires
            self.wf(),
        ensures
            match values {
                Some(found) => self@.contains_key(name@) && found.deep_view() == self@[name@],
                None => !self@.contains_key(name@),
            },
    {
        let mut i: usize = 0;
        while i < self.entries.len()
            invariant
                i <= self.entries.len(),
                self.wf(),
                forall|k: int| 0 <= k < i ==> (#[trigger] self.entries[k]).name@ != name@,
            decreases self.entries.len() - i,
        {
            if crate::text::same_text(self.entries[i].name.as_str(), name) {
                proof {
                    let at = self.index_of(name@);
                    assert(self.entries[i as int].name@ == name@);
                    assert(at == i);
                }
                return Some(&self.entries[i].values);
            }
            i = i + 1;
        }
        None
    }
}

impl View for ResponseHeaders {
    type V = Map<Seq<char>, Seq<Seq<char>>>;

    open spec fn view(&self) -> Map<Seq<char>, Seq<Seq<char>>> {
        Map::new(
            |name: Seq<char>| self.has(name),
            |name: Seq<char>| self.entries[self.index_of(name)].values.deep_view(),
        )
    }
}

fn position(entries: &Vec<HeaderEntry>, name: &String) -> (at: Option<usize>)
    ensures
        match at {
            Some(k) => k < entries.len() && entries[k as int].name@ == name@,
            None => forall|k: int| 0 <= k < entries.len() ==> (#[trigger] entries[k]).name@ != name@,
        },
{
    let mut i: usize = 0;
    while i < entries.len()
        invariant
            i <= entries.len(),
            forall|k: int| 0 <= k < i ==> (#[trigger] entries[k]).name@ != name@,
        decreases entries.len() - i,
    {
        if entries[i].name == *name {
            return Some(i);
        }
        i = i + 1;
    }
    None
}

/// Groups header pairs by name and reads each value as text. Every value is
/// kept, repeats included; the values of one name keep their order; bytes
/// that are not valid UTF-8 are repaired, never refused.
pub fn group_headers(pairs: &Vec<RawHeader>) -> (grouped: ResponseHeaders)
    ensures
        grouped.wf(),
        grouped@ == multimap(as_texts(pairs.deep_view())),
{
    let ghost all = as_texts(pairs.deep_view());
    let mut out: Vec<HeaderEntry> = Vec::new();
    let mut i: usize = 0;
    proof {
        assert forall|name: Seq<char>| values_named(all.take(0), name).len() == 0 by {
            assert(all.take(0) =~= Seq::empty());
            lemma_values_named_empty::<Seq<char>>(name);
        }
    }
    while i < pairs.len()
        invariant
            i <= pairs.len(),
            all == as_texts(pairs.deep_view()),
            all.len() == pairs.len(),
            forall|k: int|
                0 <= k < out.len() ==> (#[trigger] out[k]).values.deep_view() == values_named(
                    all.take(i as int),
                    out[k].name@,
                ),
            forall|k: int| 0 <= k < out.len() ==> (#[trigger] out[k]).values.len() > 0,
            forall|a: int, b: int|
                0 <= a < b < out.len() ==> (#[trigger] out[a]).name@ != (#[trigger] out[b]).name@,
            forall|name: Seq<char>|
                (#[trigger] values_named(all.take(i as int), name)).len() > 0 ==> exists|k: int|
                    0 <= k < out.len() && (#[trigger] out[k]).name@ == name,
        decreases pairs.len() - i,
    {
        let pair = &pairs[i];
        let text = decode_lossy(pair.value.as_slice());
        let ghost seen = all.take(i as int);
        let ghost next = all.take(i + 1);
        let ghost item = (pair.name@, text@);
        let ghost before = out;
        proof {
            assert(pairs.deep_view()[i as int] == pair@);
            assert(all[i as int] == item);
            assert(next =~= seen.push(item));
            assert forall|name: Seq<char>|
                #[trigger] values_named(next, name) == (if item.0 == name {
                    values_named(seen, name).push(item.1)
                } else {
                    values_named(seen, name)
                }) by {
                lemma_values_named_push(seen, item, name);
            }
        }
        match position(&out, &pair.name) {
            Some(k) => {
                out[k].values.push(text);
                proof {
                    assert(out[k as int].values.deep_view() =~= before[k as int].values.deep_view().push(
                        text@,
                    ));
                    assert forall|name: Seq<char>|
                        (#[trigger] values_named(next, name)).len() > 0 implies exists|j: int|
                        0 <= j < out.len() && (#[trigger] out[j]).name@ == name by {
                        if name == item.0 {
                            assert(out[k as int].name@ == name);
                        } else {
                            assert(values_named(seen, name).len() > 0);
                            let j = choose|j: int|
                                0 <= j < before.len() && (#[trigger] before[j]).name@ == name;
                            assert(out[j].name@ == name);
                        }
                    }
                }
            },
            None => {
                proof {
                    if values_named(seen, item.0).len() > 0 {
                        let j = choose|j: int|
                            0 <= j < before.len() && (#[trigger] before[j]).name@ == item.0;
                        assert(false);
                    }
                    assert(values_named(seen, item.0) =~= Seq::empty());
                }
                let mut values: Vec<String> = Vec::new();
                values.push(text);
                out.push(HeaderEntry { name: pair.name.clone(), values });
                proof {
                    let last = out.len() - 1;
                    assert(out[last].values.deep_view() =~= seq![text@]);
                    assert(values_named(seen, item.0).push(item.1) =~= seq![text@]);
                    assert forall|name: Seq<char>|
                        (#[trigger] values_named(next, name)).len() > 0 implies exists|j: int|
                        0 <= j < out.len() && (#[trigger] out[j]).name@ == name by {
                        if name == item.0 {
                            assert(out[last].name@ == name);
                        } else {
                            assert(values_named(seen, name).len() > 0);
                            let j = choose|j: int|
                                0 <= j < before.len() && (#[trigger] before[j]).name@ == name;
                            assert(out[j].name@ == name);
                        }
                    }
                }
            },
        }
        i = i + 1;
    }
    let grouped = ResponseHeaders { entries: out };
    proof {
        assert(all.take(i as int) =~= all);
        let want = multimap(all);
        assert forall|name: Seq<char>| #[trigger] grouped@.contains_key(name) == want.contains_key(name)
            && (grouped@.contains_key(name) ==> grouped@[name] == want[name]) by {
            if grouped.has(name) {
                let at = grouped.index_of(name);
                assert(grouped.entries[at].values.len() > 0);
                assert(grouped.entries[at].values.deep_view().len() > 0);
            }
            if values_named(all, name).len() > 0 {
                let j = choose|j: int| 0 <= j < out.len() && (#[trigger] out[j]).name@ == name;
                assert(grouped.entries[j].name@ == name);
            }
        }
        assert(grouped@ =~= want);
    }
    grouped
}

/// The headers of a header map as a multimap of texts: every name of the map
/// with all of its values, in their order, each read as text.
pub fn convert_headers(headers: &HeaderMap<HeaderValue>) -> (grouped: ResponseHeaders)
    ensures
        grouped.wf(),
        grouped@ == multimap(as_texts(header_map_entries(*headers))),
{
    let pairs = header_pairs(headers);
    group_headers(&pairs)
}

/// A response in its normal form.
#[derive(Clone, Debug)]
pub struct ResponsePayload {
    pub status: String,
    pub headers: ResponseHeaders,
    pub size_bytes: usize,
    pub time_ms: usize,
    pub text: String,
}

/// Puts a raw response into its normal form. The body is read as UTF-8, with
/// the replacement character for what is not; the size is that of the text,
/// not of the raw body; the time is the elapsed milliseconds of the exchange,
/// cut to the machine's word.
pub fn normalize_response(
    status: String,
    headers: &HeaderMap<HeaderValue>,
    body: &[u8],
    elapsed_ms: u128,
) -> (payload: ResponsePayload)
    ensures
        payload.status == status,
        payload.headers.wf(),
        payload.headers@ == multimap(as_texts(header_map_entries(*headers))),
        payload.text@ == text_of_bytes(body@),
        payload.size_bytes == encode_utf8(payload.text@).len(),
        payload.time_ms == #[verifier::truncate]
        (elapsed_ms as usize),
        elapsed_ms <= usize::MAX ==> payload.time_ms == elapsed_ms,
{
    let text = decode_lossy(body);
    let size_bytes = text.as_str().as_bytes().len();
    let time_ms: usize = #[verifier::truncate]
    (elapsed_ms as usize);
    ResponsePayload { status, headers: convert_headers(headers), size_bytes, time_ms, text }
}

} // verus!
