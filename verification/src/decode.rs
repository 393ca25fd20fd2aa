//! Decoding each endpoint's payload into the library's types.
//!
//! An item or user payload is a record whose discriminant field `type`
//! selects the variant and whose remaining fields fill it; a `null` payload
//! means the resource is absent and decodes to the absent value, never to
//! an error. A malformed payload — one the grammar rejects, or one whose
//! fields do not fit the selected variant — is a backend error.

use vstd::prelude::*;

use crate::HnClientError;
use crate::json::{
    spec_opt_record_doc, spec_record_doc, spec_int_doc, spec_array_doc, parse_opt_record_doc,
    parse_record_doc, parse_int_doc, parse_array_doc, JsonRecord, JsonVal, JsonValV, RecordV,
    Scalar, ScalarV, scalars_view,
};
use crate::types::{
    Comment, CommentView, Item, ItemView, Job, JobView, Poll, PollView, Pollopt, PolloptView,
    Story, StoryView, Updates, UpdatesView, User, UserView, opt_ids_view, opt_str_view,
};

verus! {

/// The value of the first field named `k`, if any.
pub open spec fn spec_record_get(r: RecordV, k: Seq<char>) -> Option<JsonValV>
    decreases r.len(),
{
    if r.len() == 0 {
        Option::None
    } else if r[0].0 == k {
        Option::Some(r[0].1)
    } else {
        spec_record_get(r.drop_first(), k)
    }
}

/// The field `k` read as an id-sized integer, if present with that shape.
pub open spec fn spec_get_u32(r: RecordV, k: Seq<char>) -> Option<u32> {
    match spec_record_get(r, k) {
        Option::Some(JsonValV::Sca(ScalarV::Int(v))) => if 0 <= v <= u32::MAX {
            Option::Some(v as u32)
        } else {
            Option::None
        },
        _ => Option::None,
    }
}

/// The field `k` read as a timestamp-sized integer, if present with that
/// shape.
pub open spec fn spec_get_u64(r: RecordV, k: Seq<char>) -> Option<u64> {
    match spec_record_get(r, k) {
        Option::Some(JsonValV::Sca(ScalarV::Int(v))) => if 0 <= v <= u64::MAX {
            Option::Some(v as u64)
        } else {
            Option::None
        },
        _ => Option::None,
    }
}

/// The field `k` read as a signed integer, if present with that shape.
pub open spec fn spec_get_i64(r: RecordV, k: Seq<char>) -> Option<i64> {
    match spec_record_get(r, k) {
        Option::Some(JsonValV::Sca(ScalarV::Int(v))) => if i64::MIN <= v <= i64::MAX {
            Option::Some(v as i64)
        } else {
            Option::None
        },
        _ => Option::None,
    }
}

/// The field `k` read as a required string, if present with that shape.
pub open spec fn spec_get_str(r: RecordV, k: Seq<char>) -> Option<Seq<char>> {
    match spec_record_get(r, k) {
        Option::Some(JsonValV::Sca(ScalarV::Str(t))) => Option::Some(t),
        _ => Option::None,
    }
}

/// The field `k` read as an optional string: absent or `null` is a valid
/// absence, a string is a valid presence, anything else is invalid.
pub open spec fn spec_get_opt_str(r: RecordV, k: Seq<char>) -> Option<Option<Seq<char>>> {
    match spec_record_get(r, k) {
        Option::None => Option::Some(Option::None),
        Option::Some(JsonValV::Sca(ScalarV::Null)) => Option::Some(Option::None),
        Option::Some(JsonValV::Sca(ScalarV::Str(t))) => Option::Some(Option::Some(t)),
        _ => Option::None,
    }
}

/// The scalars of an array read as ids, if every element is an id-sized
/// integer.
pub open spec fn scalars_as_ids(a: Seq<ScalarV>) -> Option<Seq<u32>>
    decreases a.len(),
{
    if a.len() == 0 {
        Option::Some(Seq::empty())
    } else {
        match a[0] {
            ScalarV::Int(v) => if 0 <= v <= u32::MAX {
                match scalars_as_ids(a.drop_first()) {
                    Option::Some(t) => Option::Some(seq![v as u32] + t),
                    Option::None => Option::None,
                }
            } else {
                Option::None
            },
            _ => Option::None,
        }
    }
}

/// The scalars of an array read as strings, if every element is a string.
pub open spec fn scalars_as_strings(a: Seq<ScalarV>) -> Option<Seq<Seq<char>>>
    decreases a.len(),
{
    if a.len() == 0 {
        Option::Some(Seq::empty())
    } else {
        match a[0] {
            ScalarV::Str(t) => match scalars_as_strings(a.drop_first()) {
                Option::Some(rest) => Option::Some(seq![t] + rest),
                Option::None => Option::None,
            },
            _ => Option::None,
        }
    }
}

/// The field `k` read as an optional id list: absent or `null` is a valid
/// absence, an array of id-sized integers is a valid presence, anything
/// else is invalid.
pub open spec fn spec_get_opt_ids(r: RecordV, k: Seq<char>) -> Option<Option<Seq<u32>>> {
    match spec_record_get(r, k) {
        Option::None => Option::Some(Option::None),
        Option::Some(JsonValV::Sca(ScalarV::Null)) => Option::Some(Option::None),
        Option::Some(JsonValV::Arr(a)) => match scalars_as_ids(a) {
            Option::Some(ids) => Option::Some(Option::Some(ids)),
            Option::None => Option::None,
        },
        _ => Option::None,
    }
}

/// The field `k` read as a required id list.
pub open spec fn spec_get_ids(r: RecordV, k: Seq<char>) -> Option<Seq<u32>> {
    match spec_record_get(r, k) {
        Option::Some(JsonValV::Arr(a)) => scalars_as_ids(a),
        _ => Option::None,
    }
}

/// The field `k` read as a required string list.
pub open spec fn spec_get_strings(r: RecordV, k: Seq<char>) -> Option<Seq<Seq<char>>> {
    match spec_record_get(r, k) {
        Option::Some(JsonValV::Arr(a)) => scalars_as_strings(a),
        _ => Option::None,
    }
}

/// The story a record's fields fill, if they fit.
pub open spec fn spec_story_from(r: RecordV) -> Option<StoryView> {
    match (spec_get_u32(r, "id"@), spec_get_u32(r, "descendants"@), spec_get_str(r, "by"@),
    spec_get_opt_ids(r, "kids"@), spec_get_u32(r, "score"@), spec_get_str(r, "title"@),
    spec_get_opt_str(r, "url"@), spec_get_opt_str(r, "text"@), spec_get_u64(r, "time"@)) {
        (
            Option::Some(id),
            Option::Some(descendants),
            Option::Some(by),
            Option::Some(kids),
            Option::Some(score),
            Option::Some(title),
            Option::Some(url),
            Option::Some(text),
            Option::Some(time),
        ) => Option::Some(
            StoryView { id, descendants, by, kids, score, title, url, text, time },
        ),
        _ => Option::None,
    }
}

/// The comment a record's fields fill, if they fit.
pub open spec fn spec_comment_from(r: RecordV) -> Option<CommentView> {
    match (spec_get_u32(r, "id"@), spec_get_str(r, "by"@), spec_get_opt_ids(r, "kids"@),
    spec_get_u32(r, "parent"@), spec_get_str(r, "text"@), spec_get_u64(r, "time"@)) {
        (
            Option::Some(id),
            Option::Some(by),
            Option::Some(kids),
            Option::Some(parent),
            Option::Some(text),
            Option::Some(time),
        ) => Option::Some(CommentView { id, by, kids, parent, text, time }),
        _ => Option::None,
    }
}

/// The job a record's fields fill, if they fit.
pub open spec fn spec_job_from(r: RecordV) -> Option<JobView> {
    match (spec_get_u32(r, "id"@), spec_get_u32(r, "score"@), spec_get_opt_str(r, "text"@),
    spec_get_u64(r, "time"@), spec_get_str(r, "title"@), spec_get_opt_str(r, "url"@)) {
        (
            Option::Some(id),
            Option::Some(score),
            Option::Some(text),
            Option::Some(time),
            Option::Some(title),
            Option::Some(url),
        ) => Option::Some(JobView { id, score, text, time, title, url }),
        _ => Option::None,
    }
}

/// The poll a record's fields fill, if they fit.
pub open spec fn spec_poll_from(r: RecordV) -> Option<PollView> {
    match (spec_get_u32(r, "id"@), spec_get_str(r, "by"@), spec_get_u32(r, "descendants"@),
    spec_get_opt_ids(r, "kids"@), spec_get_opt_ids(r, "parts"@), spec_get_u32(r, "score"@),
    spec_get_str(r, "title"@), spec_get_opt_str(r, "text"@), spec_get_u64(r, "time"@)) {
        (
            Option::Some(id),
            Option::Some(by),
            Option::Some(descendants),
            Option::Some(kids),
            Option::Some(parts),
            Option::Some(score),
            Option::Some(title),
            Option::Some(text),
            Option::Some(time),
        ) => Option::Some(
            PollView { id, by, descendants, kids, parts, score, title, text, time },
        ),
        _ => Option::None,
    }
}

/// The poll option a record's fields fill, if they fit.
pub open spec fn spec_pollopt_from(r: RecordV) -> Option<PolloptView> {
    match (spec_get_u32(r, "id"@), spec_get_str(r, "by"@), spec_get_u32(r, "poll"@),
    spec_get_u32(r, "score"@), spec_get_opt_str(r, "text"@), spec_get_u64(r, "time"@)) {
        (
            Option::Some(id),
            Option::Some(by),
            Option::Some(poll),
            Option::Some(score),
            Option::Some(text),
            Option::Some(time),
        ) => Option::Some(PolloptView { id, by, poll, score, text, time }),
        _ => Option::None,
    }
}

/// The item a record denotes: the variant its `type` discriminant selects,
/// filled from the remaining fields.
pub open spec fn spec_item_from(r: RecordV) -> Option<ItemView> {
    match spec_get_str(r, "type"@) {
        Option::None => Option::None,
        Option::Some(tag) => if tag == "story"@ {
            match spec_story_from(r) {
                Option::Some(s) => Option::Some(ItemView::Story(s)),
                Option::None => Option::None,
            }
        } else if tag == "comment"@ {
            match spec_comment_from(r) {
                Option::Some(c) => Option::Some(ItemView::Comment(c)),
                Option::None => Option::None,
            }
        } else if tag == "job"@ {
            match spec_job_from(r) {
                Option::Some(j) => Option::Some(ItemView::Job(j)),
                Option::None => Option::None,
            }
        } else if tag == "poll"@ {
            match spec_poll_from(r) {
                Option::Some(p) => Option::Some(ItemView::Poll(p)),
                Option::None => Option::None,
            }
        } else if tag == "pollopt"@ {
            match spec_pollopt_from(r) {
                Option::Some(p) => Option::Some(ItemView::Pollopt(p)),
                Option::None => Option::None,
            }
        } else {
            Option::None
        },
    }
}

/// The user a record's fields fill, if they fit.
pub open spec fn spec_user_from(r: RecordV) -> Option<UserView> {
    match (spec_get_str(r, "id"@), spec_get_u64(r, "created"@), spec_get_i64(r, "karma"@),
    spec_get_opt_str(r, "about"@), spec_get_opt_ids(r, "submitted"@)) {
        (
            Option::Some(id),
            Option::Some(created),
            Option::Some(karma),
            Option::Some(about),
            Option::Some(submitted),
        ) => Option::Some(UserView { id, created, karma, about, submitted }),
        _ => Option::None,
    }
}

/// The recently-changed lists a record's fields fill, if they fit.
pub open spec fn spec_updates_from(r: RecordV) -> Option<UpdatesView> {
    match (spec_get_ids(r, "items"@), spec_get_strings(r, "profiles"@)) {
        (Option::Some(items), Option::Some(profiles)) => Option::Some(
            UpdatesView { items, profiles },
        ),
        _ => Option::None,
    }
}

/// What an item payload denotes: `None` when the grammar or the schema
/// rejects it; `Some(None)` for `null` (no such item); else the item.
pub open spec fn spec_decode_item(t: Seq<char>) -> Option<Option<ItemView>> {
    match spec_opt_record_doc(t) {
        Option::None => Option::None,
        Option::Some(Option::None) => Option::Some(Option::None),
        Option::Some(Option::Some(rec)) => match spec_item_from(rec) {
            Option::Some(iv) => Option::Some(Option::Some(iv)),
            Option::None => Option::None,
        },
    }
}

/// What a user payload denotes, in the same shape as `spec_decode_item`.
pub open spec fn spec_decode_user(t: Seq<char>) -> Option<Option<UserView>> {
    match spec_opt_record_doc(t) {
        Option::None => Option::None,
        Option::Some(Option::None) => Option::Some(Option::None),
        Option::Some(Option::Some(rec)) => match spec_user_from(rec) {
            Option::Some(uv) => Option::Some(Option::Some(uv)),
            Option::None => Option::None,
        },
    }
}

/// What a latest-item-id payload denotes: one id-sized integer.
pub open spec fn spec_decode_max_item(t: Seq<char>) -> Option<u32> {
    match spec_int_doc(t) {
        Option::Some(v) => if 0 <= v <= u32::MAX {
            Option::Some(v as u32)
        } else {
            Option::None
        },
        Option::None => Option::None,
    }
}

/// What a story-list payload denotes: an ordered sequence of ids.
pub open spec fn spec_decode_id_list(t: Seq<char>) -> Option<Seq<u32>> {
    match spec_array_doc(t) {
        Option::Some(a) => scalars_as_ids(a),
        Option::None => Option::None,
    }
}

/// What an updates payload denotes.
pub open spec fn spec_decode_updates(t: Seq<char>) -> Option<UpdatesView> {
    match spec_record_doc(t) {
        Option::Some(rec) => spec_updates_from(rec),
        Option::None => Option::None,
    }
}

/// The view of an optional item.
pub open spec fn opt_item_view(o: Option<Item>) -> Option<ItemView> {
    match o {
        Option::None => Option::None,
        Option::Some(it) => Option::Some(it@),
    }
}

/// The view of an optional user.
pub open spec fn opt_user_view(o: Option<User>) -> Option<UserView> {
    match o {
        Option::None => Option::None,
        Option::Some(u) => Option::Some(u@),
    }
}

/// Law: a payload denoting an absent resource — the literal `null` — always
/// decodes to the absent value, never to an error; in particular the
/// payload `null` itself does, and since what a decode yields is a function
/// of the payload text alone, repeated decodes of it yield absence every
/// time.
pub proof fn lemma_absence_is_not_error(t: Seq<char>)
    requires
        t == "null"@ || spec_opt_record_doc(t) == Option::Some(Option::None::<RecordV>),
    ensures
        spec_decode_item(t) == Option::Some(Option::None::<crate::types::ItemView>),
        spec_decode_user(t) == Option::Some(Option::None::<UserView>),
{
    if t == "null"@ {
        reveal_strlit("null");
        assert(crate::json::ws_end(t, 0) == 0);
        assert(crate::json::ws_end(t, 4) == 4);
        assert(crate::json::spec_null_at(t, 0));
    }
}

/// Whether two string slices hold the same characters.
fn str_eq(a: &str, b: &str) -> (r: bool)
    ensures
        r == (a@ == b@),
{
    let na = a.unicode_len();
    let nb = b.unicode_len();
    if na != nb {
        return false;
    }
    let mut i: usize = 0;
    while i < na
        invariant
            i <= na,
            na == a@.len() == b@.len(),
            forall|j: int| 0 <= j < i ==> a@[j] == b@[j],
        decreases na - i,
    {
        if a.get_char(i) != b.get_char(i) {
            return false;
        }
        i = i + 1;
    }
    proof {
        assert(a@ =~= b@);
    }
    true
}

/// Find the first field named `key`.
fn record_get<'a>(rec: &'a JsonRecord, key: &str) -> (r: Option<&'a JsonVal>)
    ensures
        match r {
            Option::Some(v) => spec_record_get(rec@, key@) == Option::Some(v@),
            Option::None => spec_record_get(rec@, key@) is None,
        },
{
    let mut i: usize = 0;
    proof {
        assert(rec@.skip(0) =~= rec@);
    }
    while i < rec.fields.len()
        invariant
            i <= rec.fields@.len(),
            spec_record_get(rec@, key@) == spec_record_get(rec@.skip(i as int), key@),
        decreases rec.fields@.len() - i,
    {
        let f = &rec.fields[i];
        if str_eq(f.0.as_str(), key) {
            proof {
                assert(rec@.skip(i as int)[0] == rec@[i as int]);
            }
            return Option::Some(&f.1);
        }
        proof {
            assert(rec@.skip(i as int)[0] == rec@[i as int]);
            assert(rec@.skip(i as int).drop_first() =~= rec@.skip(i as int + 1));
        }
        i = i + 1;
    }
    Option::None
}

/// Read the field `key` as an id-sized integer.
fn get_u32(rec: &JsonRecord, key: &str) -> (r: Option<u32>)
    ensures
        match r {
            Option::Some(v) => spec_get_u32(rec@, key@) == Option::Some(v),
            Option::None => spec_get_u32(rec@, key@) is None,
        },
{
    match record_get(rec, key) {
        Option::Some(JsonVal::Sca(Scalar::Int(v))) => {
            if 0 <= *v && *v <= u32::MAX as i64 {
                Option::Some(*v as u32)
            } else {
                Option::None
            }
        },
        _ => Option::None,
    }
}

/// Read the field `key` as a timestamp-sized integer.
fn get_u64(rec: &JsonRecord, key: &str) -> (r: Option<u64>)
    ensures
        match r {
            Option::Some(v) => spec_get_u64(rec@, key@) == Option::Some(v),
            Option::None => spec_get_u64(rec@, key@) is None,
        },
{
    match record_get(rec, key) {
        Option::Some(JsonVal::Sca(Scalar::Int(v))) => {
            if 0 <= *v {
                Option::Some(*v as u64)
            } else {
                Option::None
            }
        },
        _ => Option::None,
    }
}

/// Read the field `key` as a signed integer.
fn get_i64(rec: &JsonRecord, key: &str) -> (r: Option<i64>)
    ensures
        match r {
            Option::Some(v) => spec_get_i64(rec@, key@) == Option::Some(v),
            Option::None => spec_get_i64(rec@, key@) is None,
        },
{
    match record_get(rec, key) {
        Option::Some(JsonVal::Sca(Scalar::Int(v))) => Option::Some(*v),
        _ => Option::None,
    }
}

/// Read the field `key` as a required string.
fn get_string(rec: &JsonRecord, key: &str) -> (r: Option<String>)
    ensures
        match r {
            Option::Some(v) => spec_get_str(rec@, key@) == Option::Some(v@),
            Option::None => spec_get_str(rec@, key@) is None,
        },
{
    match record_get(rec, key) {
        Option::Some(JsonVal::Sca(Scalar::Str(t))) => Option::Some(t.clone()),
        _ => Option::None,
    }
}

/// Read the field `key` as an optional string.
fn get_opt_string(rec: &JsonRecord, key: &str) -> (r: Option<Option<String>>)
    ensures
        match r {
            Option::Some(o) => spec_get_opt_str(rec@, key@) == Option::Some(opt_str_view(o)),
            Option::None => spec_get_opt_str(rec@, key@) is None,
        },
{
    match record_get(rec, key) {
        Option::None => Option::Some(Option::None),
        Option::Some(JsonVal::Sca(Scalar::Null)) => Option::Some(Option::None),
        Option::Some(JsonVal::Sca(Scalar::Str(t))) => Option::Some(Option::Some(t.clone())),
        _ => Option::None,
    }
}

/// Read an array's scalars as ids.
fn ids_from_scalars(a: &Vec<Scalar>) -> (r: Option<Vec<u32>>)
    ensures
        match r {
            Option::Some(v) => scalars_as_ids(scalars_view(a@)) == Option::Some(v@),
            Option::None => scalars_as_ids(scalars_view(a@)) is None,
        },
{
    let ghost sv = scalars_view(a@);
    let mut out: Vec<u32> = Vec::new();
    let mut i: usize = 0;
    proof {
        assert(sv.skip(0) =~= sv);
        if scalars_as_ids(sv) is Some {
            let t0 = scalars_as_ids(sv).unwrap();
            assert(out@ + t0 =~= t0);
        }
    }
    while i < a.len()
        invariant
            i <= a@.len(),
            sv == scalars_view(a@),
            match scalars_as_ids(sv.skip(i as int)) {
                Option::Some(t) => scalars_as_ids(sv) == Option::Some(out@ + t),
                Option::None => scalars_as_ids(sv) is None,
            },
        decreases a@.len() - i,
    {
        proof {
            assert(sv.skip(i as int)[0] == sv[i as int]);
            assert(sv.skip(i as int).drop_first() =~= sv.skip(i as int + 1));
        }
        match &a[i] {
            Scalar::Int(v) => {
                if 0 <= *v && *v <= u32::MAX as i64 {
                    let ghost oldout = out@;
                    out.push(*v as u32);
                    proof {
                        if scalars_as_ids(sv.skip(i as int + 1)) is Some {
                            let t2 = scalars_as_ids(sv.skip(i as int + 1)).unwrap();
                            assert((oldout + seq![(sv[i as int]->Int_0) as u32]) + t2 =~= oldout + (
                            seq![(sv[i as int]->Int_0) as u32] + t2));
                        }
                    }
                } else {
                    return Option::None;
                }
            },
            _ => {
                return Option::None;
            },
        }
        i = i + 1;
    }
    proof {
        assert(sv.skip(i as int) =~= Seq::<ScalarV>::empty());
        assert(out@ + Seq::<u32>::empty() =~= out@);
    }
    Option::Some(out)
}

/// Read an array's scalars as strings.
fn strings_from_scalars(a: &Vec<Scalar>) -> (r: Option<Vec<String>>)
    ensures
        match r {
            Option::Some(v) => scalars_as_strings(scalars_view(a@)) == Option::Some(
                Seq::new(v@.len(), |i: int| v@[i]@),
            ),
            Option::None => scalars_as_strings(scalars_view(a@)) is None,
        },
{
    let ghost sv = scalars_view(a@);
    let mut out: Vec<String> = Vec::new();
    let mut i: usize = 0;
    proof {
        assert(sv.skip(0) =~= sv);
        if scalars_as_strings(sv) is Some {
            let t0 = scalars_as_strings(sv).unwrap();
            assert(Seq::new(out@.len(), |k: int| out@[k]@) + t0 =~= t0);
        }
    }
    while i < a.len()
        invariant
            i <= a@.len(),
            sv == scalars_view(a@),
            match scalars_as_strings(sv.skip(i as int)) {
                Option::Some(t) => scalars_as_strings(sv) == Option::Some(
                    Seq::new(out@.len(), |k: int| out@[k]@) + t,
                ),
                Option::None => scalars_as_strings(sv) is None,
            },
        decreases a@.len() - i,
    {
        proof {
            assert(sv.skip(i as int)[0] == sv[i as int]);
            assert(sv.skip(i as int).drop_first() =~= sv.skip(i as int + 1));
        }
        match &a[i] {
            Scalar::Str(t) => {
                let ghost oldview = Seq::new(out@.len(), |k: int| out@[k]@);
                out.push(t.clone());
                proof {
                    assert(Seq::new(out@.len(), |k: int| out@[k]@) =~= oldview + seq![
                        sv[i as int]->Str_0,
                    ]);
                    if scalars_as_strings(sv.skip(i as int + 1)) is Some {
                        let t2 = scalars_as_strings(sv.skip(i as int + 1)).unwrap();
                        assert((oldview + seq![sv[i as int]->Str_0]) + t2 =~= oldview + (seq![
                            sv[i as int]->Str_0,
                        ] + t2));
                    }
                }
            },
            _ => {
                return Option::None;
            },
        }
        i = i + 1;
    }
    proof {
        assert(sv.skip(i as int) =~= Seq::<ScalarV>::empty());
        assert(Seq::new(out@.len(), |k: int| out@[k]@) + Seq::<Seq<char>>::empty() =~= Seq::new(
            out@.len(),
            |k: int| out@[k]@,
        ));
    }
    Option::Some(out)
}

/// Read the field `key` as an optional id list.
fn get_opt_ids(rec: &JsonRecord, key: &str) -> (r: Option<Option<Vec<u32>>>)
    ensures
        match r {
            Option::Some(o) => spec_get_opt_ids(rec@, key@) == Option::Some(opt_ids_view(o)),
            Option::None => spec_get_opt_ids(rec@, key@) is None,
        },
{
    match record_get(rec, key) {
        Option::None => Option::Some(Option::None),
        Option::Some(JsonVal::Sca(Scalar::Null)) => Option::Some(Option::None),
        Option::Some(JsonVal::Arr(a)) => match ids_from_scalars(a) {
            Option::Some(ids) => Option::Some(Option::Some(ids)),
            Option::None => Option::None,
        },
        _ => Option::None,
    }
}

/// Read the field `key` as a required id list.
fn get_ids(rec: &JsonRecord, key: &str) -> (r: Option<Vec<u32>>)
    ensures
        match r {
            Option::Some(v) => spec_get_ids(rec@, key@) == Option::Some(v@),
            Option::None => spec_get_ids(rec@, key@) is None,
        },
{
    match record_get(rec, key) {
        Option::Some(JsonVal::Arr(a)) => ids_from_scalars(a),
        _ => Option::None,
    }
}

/// Read the field `key` as a required string list.
fn get_strings(rec: &JsonRecord, key: &str) -> (r: Option<Vec<String>>)
    ensures
        match r {
            Option::Some(v) => spec_get_strings(rec@, key@) == Option::Some(
                Seq::new(v@.len(), |i: int| v@[i]@),
            ),
            Option::None => spec_get_strings(rec@, key@) is None,
        },
{
    match record_get(rec, key) {
        Option::Some(JsonVal::Arr(a)) => strings_from_scalars(a),
        _ => Option::None,
    }
}

/// Fill a story from a record's fields.
fn story_from(rec: &JsonRecord) -> (r: Option<Story>)
    ensures
        match r {
            Option::Some(v) => spec_story_from(rec@) == Option::Some(v@),
            Option::None => spec_story_from(rec@) is None,
        },
{
    let id = match get_u32(rec, "id") {
        Option::Some(v) => v,
        Option::None => {
            return Option::None;
        },
    };
    let descendants = match get_u32(rec, "descendants") {
        Option::Some(v) => v,
        Option::None => {
            return Option::None;
        },
    };
    let by = match get_string(rec, "by") {
        Option::Some(v) => v,
        Option::None => {
            return Option::None;
        },
    };
    let kids = match get_opt_ids(rec, "kids") {
        Option::Some(v) => v,
        Option::None => {
            return Option::None;
        },
    };
    let score = match get_u32(rec, "score") {
        Option::Some(v) => v,
        Option::None => {
            return Option::None;
        },
    };
    let title = match get_string(rec, "title") {
        Option::Some(v) => v,
        Option::None => {
            return Option::None;
        },
    };
    let url = match get_opt_string(rec, "url") {
        Option::Some(v) => v,
        Option::None => {
            return Option::None;
        },
    };
    let text = match get_opt_string(rec, "text") {
        Option::Some(v) => v,
        Option::None => {
            return Option::None;
        },
    };
    let time = match get_u64(rec, "time") {
        Option::Some(v) => v,
        Option::None => {
            return Option::None;
        },
    };
    Option::Some(Story { id, descendants, by, kids, score, title, url, text, time })
}

/// Fill a comment from a record's fields.
fn comment_from(rec: &JsonRecord) -> (r: Option<Comment>)
    ensures
        match r {
            Option::Some(v) => spec_comment_from(rec@) == Option::Some(v@),
            Option::None => spec_comment_from(rec@) is None,
        },
{
    let id = match get_u32(rec, "id") {
        Option::Some(v) => v,
        Option::None => {
            return Option::None;
        },
    };
    let by = match get_string(rec, "by") {
        Option::Some(v) => v,
        Option::None => {
            return Option::None;
        },
    };
    let kids = match get_opt_ids(rec, "kids") {
        Option::Some(v) => v,
        Option::None => {
            return Option::None;
        },
    };
    let parent = match get_u32(rec, "parent") {
        Option::Some(v) => v,
        Option::None => {
            return Option::None;
        },
    };
    let text = match get_string(rec, "text") {
        Option::Some(v) => v,
        Option::None => {
            return Option::None;
        },
    };
    let time = match get_u64(rec, "time") {
        Option::Some(v) => v,
        Option::None => {
            return Option::None;
        },
    };
    Option::Some(Comment { id, by, kids, parent, text, time })
}

/// Fill a job from a record's fields.
fn job_from(rec: &JsonRecord) -> (r: Option<Job>)
    ensures
        match r {
            Option::Some(v) => spec_job_from(rec@) == Option::Some(v@),
            Option::None => spec_job_from(rec@) is None,
        },
{
    let id = match get_u32(rec, "id") {
        Option::Some(v) => v,
        Option::None => {
            return Option::None;
        },
    };
    let score = match get_u32(rec, "score") {
        Option::Some(v) => v,
        Option::None => {
            return Option::None;
        },
    };
    let text = match get_opt_string(rec, "text") {
        Option::Some(v) => v,
        Option::None => {
            return Option::None;
        },
    };
    let time = match get_u64(rec, "time") {
        Option::Some(v) => v,
        Option::None => {
            return Option::None;
        },
    };
    let title = match get_string(rec, "title") {
        Option::Some(v) => v,
        Option::None => {
            return Option::None;
        },
    };
    let url = match get_opt_string(rec, "url") {
        Option::Some(v) => v,
        Option::None => {
            return Option::None;
        },
    };
    Option::Some(Job { id, score, text, time, title, url })
}

/// Fill a poll from a record's fields.
fn poll_from(rec: &JsonRecord) -> (r: Option<Poll>)
    ensures
        match r {
            Option::Some(v) => spec_poll_from(rec@) == Option::Some(v@),
            Option::None => spec_poll_from(rec@) is None,
        },
{
    let id = match get_u32(rec, "id") {
        Option::Some(v) => v,
        Option::None => {
            return Option::None;
        },
    };
    let by = match get_string(rec, "by") {
        Option::Some(v) => v,
        Option::None => {
            return Option::None;
        },
    };
    let descendants = match get_u32(rec, "descendants") {
        Option::Some(v) => v,
        Option::None => {
            return Option::None;
        },
    };
    let kids = match get_opt_ids(rec, "kids") {
        Option::Some(v) => v,
        Option::None => {
            return Option::None;
        },
    };
    let parts = match get_opt_ids(rec, "parts") {
        Option::Some(v) => v,
        Option::None => {
            return Option::None;
        },
    };
    let score = match get_u32(rec, "score") {
        Option::Some(v) => v,
        Option::None => {
            return Option::None;
        },
    };
    let title = match get_string(rec, "title") {
        Option::Some(v) => v,
        Option::None => {
            return Option::None;
        },
    };
    let text = match get_opt_string(rec, "text") {
        Option::Some(v) => v,
        Option::None => {
            return Option::None;
        },
    };
    let time = match get_u64(rec, "time") {
        Option::Some(v) => v,
        Option::None => {
            return Option::None;
        },
    };
    Option::Some(Poll { id, by, descendants, kids, parts, score, title, text, time })
}

/// Fill a poll option from a record's fields.
fn pollopt_from(rec: &JsonRecord) -> (r: Option<Pollopt>)
    ensures
        match r {
            Option::Some(v) => spec_pollopt_from(rec@) == Option::Some(v@),
            Option::None => spec_pollopt_from(rec@) is None,
        },
{
    let id = match get_u32(rec, "id") {
        Option::Some(v) => v,
        Option::None => {
            return Option::None;
        },
    };
    let by = match get_string(rec, "by") {
        Option::Some(v) => v,
        Option::None => {
            return Option::None;
        },
    };
    let poll = match get_u32(rec, "poll") {
        Option::Some(v) => v,
        Option::None => {
            return Option::None;
        },
    };
    let score = match get_u32(rec, "score") {
        Option::Some(v) => v,
        Option::None => {
            return Option::None;
        },
    };
    let text = match get_opt_string(rec, "text") {
        Option::Some(v) => v,
        Option::None => {
            return Option::None;
        },
    };
    let time = match get_u64(rec, "time") {
        Option::Some(v) => v,
        Option::None => {
            return Option::None;
        },
    };
    Option::Some(Pollopt { id, by, poll, score, text, time })
}

/// Build the item a record denotes, dispatching on its discriminant.
fn item_from_record(rec: &JsonRecord) -> (r: Option<Item>)
    ensures
        match r {
            Option::Some(v) => spec_item_from(rec@) == Option::Some(v@),
            Option::None => spec_item_from(rec@) is None,
        },
{
    let tag = match get_string(rec, "type") {
        Option::Some(t) => t,
        Option::None => {
            return Option::None;
        },
    };
    if str_eq(tag.as_str(), "story") {
        match story_from(rec) {
            Option::Some(s) => Option::Some(Item::Story(s)),
            Option::None => Option::None,
        }
    } else if str_eq(tag.as_str(), "comment") {
        match comment_from(rec) {
            Option::Some(c) => Option::Some(Item::Comment(c)),
            Option::None => Option::None,
        }
    } else if str_eq(tag.as_str(), "job") {
        match job_from(rec) {
            Option::Some(j) => Option::Some(Item::Job(j)),
            Option::None => Option::None,
        }
    } else if str_eq(tag.as_str(), "poll") {
        match poll_from(rec) {
            Option::Some(p) => Option::Some(Item::Poll(p)),
            Option::None => Option::None,
        }
    } else if str_eq(tag.as_str(), "pollopt") {
        match pollopt_from(rec) {
            Option::Some(p) => Option::Some(Item::Pollopt(p)),
            Option::None => Option::None,
        }
    } else {
        Option::None
    }
}

/// Build the user a record denotes.
fn user_from_record(rec: &JsonRecord) -> (r: Option<User>)
    ensures
        match r {
            Option::Some(v) => spec_user_from(rec@) == Option::Some(v@),
            Option::None => spec_user_from(rec@) is None,
        },
{
    let id = match get_string(rec, "id") {
        Option::Some(v) => v,
        Option::None => {
            return Option::None;
        },
    };
    let created = match get_u64(rec, "created") {
        Option::Some(v) => v,
        Option::None => {
            return Option::None;
        },
    };
    let karma = match get_i64(rec, "karma") {
        Option::Some(v) => v,
        Option::None => {
            return Option::None;
        },
    };
    let about = match get_opt_string(rec, "about") {
        Option::Some(v) => v,
        Option::None => {
            return Option::None;
        },
    };
    let submitted = match get_opt_ids(rec, "submitted") {
        Option::Some(v) => v,
        Option::None => {
            return Option::None;
        },
    };
    Option::Some(User { id, created, karma, about, submitted })
}

/// Decode an item payload. A `null` payload decodes to `Ok(None)` — a
/// missing item is an absence, never an error — and a payload the grammar
/// or the schema rejects is a backend error.
pub fn decode_item(s: &str) -> (r: Result<Option<Item>, HnClientError>)
    ensures
        match r {
            Result::Ok(o) => spec_decode_item(s@) == Option::Some(opt_item_view(o)),
            Result::Err(e) => spec_decode_item(s@) is None && (e matches HnClientError::BackendError(
                m,
            ) && m@ == "invalid item payload"@),
        },
{
    match parse_opt_record_doc(s) {
        Option::Some(Option::None) => Result::Ok(Option::None),
        Option::Some(Option::Some(rec)) => match item_from_record(&rec) {
            Option::Some(it) => Result::Ok(Option::Some(it)),
            Option::None => Result::Err(
                HnClientError::BackendError(String::from_str("invalid item payload")),
            ),
        },
        Option::None => Result::Err(
            HnClientError::BackendError(String::from_str("invalid item payload")),
        ),
    }
}

/// Decode a user payload. A `null` payload decodes to `Ok(None)`.
pub fn decode_user(s: &str) -> (r: Result<Option<User>, HnClientError>)
    ensures
        match r {
            Result::Ok(o) => spec_decode_user(s@) == Option::Some(opt_user_view(o)),
            Result::Err(e) => spec_decode_user(s@) is None && (e matches HnClientError::BackendError(
                m,
            ) && m@ == "invalid user payload"@),
        },
{
    match parse_opt_record_doc(s) {
        Option::Some(Option::None) => Result::Ok(Option::None),
        Option::Some(Option::Some(rec)) => match user_from_record(&rec) {
            Option::Some(u) => Result::Ok(Option::Some(u)),
            Option::None => Result::Err(
                HnClientError::BackendError(String::from_str("invalid user payload")),
            ),
        },
        Option::None => Result::Err(
            HnClientError::BackendError(String::from_str("invalid user payload")),
        ),
    }
}

/// Decode a latest-item-id payload.
pub fn decode_max_item(s: &str) -> (r: Result<u32, HnClientError>)
    ensures
        match r {
            Result::Ok(v) => spec_decode_max_item(s@) == Option::Some(v),
            Result::Err(e) => spec_decode_max_item(s@) is None && (e
                matches HnClientError::BackendError(m) && m@ == "invalid id payload"@),
        },
{
    match parse_int_doc(s) {
        Option::Some(v) => {
            if 0 <= v && v <= u32::MAX as i64 {
                Result::Ok(v as u32)
            } else {
                Result::Err(HnClientError::BackendError(String::from_str("invalid id payload")))
            }
        },
        Option::None => Result::Err(
            HnClientError::BackendError(String::from_str("invalid id payload")),
        ),
    }
}

/// Decode a story-list payload: an ordered sequence of item ids.
pub fn decode_id_list(s: &str) -> (r: Result<Vec<u32>, HnClientError>)
    ensures
        match r {
            Result::Ok(v) => spec_decode_id_list(s@) == Option::Some(v@),
            Result::Err(e) => spec_decode_id_list(s@) is None && (e
                matches HnClientError::BackendError(m) && m@ == "invalid id list payload"@),
        },
{
    match parse_array_doc(s) {
        Option::Some(a) => match ids_from_scalars(&a) {
            Option::Some(ids) => Result::Ok(ids),
            Option::None => Result::Err(
                HnClientError::BackendError(String::from_str("invalid id list payload")),
            ),
        },
        Option::None => Result::Err(
            HnClientError::BackendError(String::from_str("invalid id list payload")),
        ),
    }
}

/// Decode an updates payload: recently changed item ids and profile names.
pub fn decode_updates(s: &str) -> (r: Result<Updates, HnClientError>)
    ensures
        match r {
            Result::Ok(v) => spec_decode_updates(s@) == Option::Some(v@),
            Result::Err(e) => spec_decode_updates(s@) is None && (e
                matches HnClientError::BackendError(m) && m@ == "invalid updates payload"@),
        },
{
    match parse_record_doc(s) {
        Option::Some(rec) => {
            let items = match get_ids(&rec, "items") {
                Option::Some(v) => v,
                Option::None => {
                    return Result::Err(
                        HnClientError::BackendError(String::from_str("invalid updates payload")),
                    );
                },
            };
            let profiles = match get_strings(&rec, "profiles") {
                Option::Some(v) => v,
                Option::None => {
                    return Result::Err(
                        HnClientError::BackendError(String::from_str("invalid updates payload")),
                    );
                },
            };
            Result::Ok(Updates { items, profiles })
        },
        Option::None => Result::Err(
            HnClientError::BackendError(String::from_str("invalid updates payload")),
        ),
    }
}

} // verus!
