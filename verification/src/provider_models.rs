//! Reading the model list that a provider's endpoint sends back.

use vstd::prelude::*;

use crate::json::{member, json_document, json_error_display, json_error_message, json_error_text, parse_json, Json, JsonV};
use crate::text::{
    is_trimmed, lemma_trim_is_trimmed, lossy_text, trim, trim_str, utf8_lossy,
};

verus! {

/// A model that a provider lists, by its id.
#[derive(Debug, Clone, PartialEq, Eq)]
pub struct ProviderModel {
    pub id: String,
}

/// The ids of a list of models, in order.
pub open spec fn ids_of(models: Seq<ProviderModel>) -> Seq<Seq<char>> {
    models.map_values(|m: ProviderModel| m.id@)
}

/// The id list after `id` is offered: the id is trimmed, and kept at the
/// end only when it is not empty and not listed already.
pub open spec fn with_id(ids: Seq<Seq<char>>, id: Seq<char>) -> Seq<Seq<char>> {
    let t = trim(id);
    if t.len() == 0 || ids.contains(t) {
        ids
    } else {
        ids.push(t)
    }
}

/// The id list after each offer in turn; an absent offer changes nothing.
pub open spec fn with_offers(ids: Seq<Seq<char>>, offers: Seq<Option<Seq<char>>>) -> Seq<
    Seq<char>,
>
    decreases offers.len(),
{
    if offers.len() == 0 {
        ids
    } else {
        let before = with_offers(ids, offers.drop_last());
        match offers.last() {
            Some(id) => with_id(before, id),
            None => before,
        }
    }
}

/// What the OpenAI-style `data` list offers: the string `id` of each entry.
pub open spec fn data_offers(doc: JsonV) -> Seq<Option<Seq<char>>> {
    match doc.array_member("data"@) {
        Some(items) => items.map_values(|item: JsonV| item.str_member("id"@)),
        None => Seq::empty(),
    }
}

/// The id of an entry of a `models` list: the first string member among
/// `id`, `model`, `name` and `slug`.
pub open spec fn models_entry_id(item: JsonV) -> Option<Seq<char>> {
    if item.str_member("id"@) is Some {
        item.str_member("id"@)
    } else if item.str_member("model"@) is Some {
        item.str_member("model"@)
    } else if item.str_member("name"@) is Some {
        item.str_member("name"@)
    } else {
        item.str_member("slug"@)
    }
}

/// What the `models` list offers: the id of each entry.
pub open spec fn models_offers(doc: JsonV) -> Seq<Option<Seq<char>>> {
    match doc.array_member("models"@) {
        Some(items) => items.map_values(|item: JsonV| models_entry_id(item)),
        None => Seq::empty(),
    }
}

/// The ids a provider's answer lists: those of `data`, and only where
/// `data` yields none, those of `models`.
pub open spec fn provider_model_ids(doc: JsonV) -> Seq<Seq<char>> {
    let from_data = with_offers(Seq::empty(), data_offers(doc));
    if from_data.len() == 0 {
        with_offers(Seq::empty(), models_offers(doc))
    } else {
        from_data
    }
}

/// Every id is non-empty, has no whitespace at either end, and is listed once.
pub open spec fn ids_well_formed(ids: Seq<Seq<char>>) -> bool {
    &&& forall|i: int| 0 <= i < ids.len() ==> (#[trigger] ids[i]).len() > 0
    &&& forall|i: int| 0 <= i < ids.len() ==> is_trimmed(#[trigger] ids[i])
    &&& ids.no_duplicates()
}

/// Adds the model `id`, trimmed, unless it is empty or listed already.
pub fn push_model_id(models: &mut Vec<ProviderModel>, id: &str)
    ensures
        ids_of(final(models)@) == with_id(ids_of(old(models)@), id@),
        final(models)@.len() >= old(models)@.len(),
        final(models)@.subrange(0, old(models)@.len() as int) == old(models)@,
{
    let trimmed = trim_str(id);
    if trimmed.is_empty() {
        return;
    }
    let owned = trimmed.to_owned();
    let ghost ids = ids_of(models@);
    let mut i: usize = 0;
    while i < models.len()
        invariant
            i <= models@.len(),
            owned@ == trim(id@),
            ids == ids_of(models@),
            forall|j: int| 0 <= j < i ==> (#[trigger] ids[j]) != owned@,
        decreases models.len() - i,
    {
        if models[i].id == owned {
            proof {
                assert(ids[i as int] == owned@);
            }
            return;
        }
        i += 1;
    }
    models.push(ProviderModel { id: owned });
    proof {
        assert(ids_of(models@) =~= ids.push(owned@));
        assert(models@.subrange(0, ids.len() as int) =~= old(models)@);
    }
}


/// The id of an entry of a `models` list: the first string member among
/// `id`, `model`, `name` and `slug`.
fn entry_id(item: &Json) -> (res: Option<&str>)
    ensures
        match res {
            Some(s) => models_entry_id(item@) == Some(s@),
            None => models_entry_id(item@) is None,
        },
{
    if let Some(id) = item.str_member("id") {
        return Some(id);
    }
    if let Some(id) = item.str_member("model") {
        return Some(id);
    }
    if let Some(id) = item.str_member("name") {
        return Some(id);
    }
    item.str_member("slug")
}

/// The models a provider's answer lists, read from the parsed document: the
/// `id` of each entry of `data`, or, where that yields none, the id of each
/// entry of `models`. Ids are trimmed, and empty or repeated ones dropped.
pub fn provider_models_from_json(doc: &Json) -> (res: Vec<ProviderModel>)
    ensures
        ids_of(res@) == provider_model_ids(doc@),
        ids_well_formed(ids_of(res@)),
{
    proof {
        provider_model_ids_well_formed(doc@);
    }
    let mut models: Vec<ProviderModel> = Vec::new();
    let ghost offers = data_offers(doc@);
    if let Some(items) = doc.array_member("data") {
        let n = items.len();
        for i in 0..n
            invariant
                n == items@.len(),
                offers.len() == n,
                forall|j: int| 0 <= j < n ==> #[trigger] offers[j] == items@[j]@.str_member("id"@),
                ids_of(models@) == with_offers(Seq::empty(), offers.take(i as int)),
        {
            if let Some(id) = items[i].str_member("id") {
                push_model_id(&mut models, id);
            }
            assert(offers.take(i + 1).drop_last() =~= offers.take(i as int));
        }
        assert(offers.take(n as int) =~= offers);
    } else {
        assert(ids_of(models@) =~= Seq::empty());
    }
    if models.is_empty() {
        let ghost offers = models_offers(doc@);
        if let Some(items) = doc.array_member("models") {
            let n = items.len();
            for i in 0..n
                invariant
                    n == items@.len(),
                    offers.len() == n,
                    forall|j: int| 0 <= j < n ==> #[trigger] offers[j] == models_entry_id(items@[j]@),
                    ids_of(models@) == with_offers(Seq::empty(), offers.take(i as int)),
            {
                if let Some(id) = entry_id(&items[i]) {
                    push_model_id(&mut models, id);
                }
                assert(offers.take(i + 1).drop_last() =~= offers.take(i as int));
            }
            assert(offers.take(n as int) =~= offers);
        } else {
            assert(ids_of(models@) =~= Seq::empty());
        }
    }
    models
}


/// Reads a provider's answer: the models it lists, or the error `serde_json`
/// reports where the body is not JSON.
pub fn parse_provider_models(body: &[u8]) -> (res: Result<Vec<ProviderModel>, serde_json::Error>)
    ensures
        res is Ok <==> json_document(body@) is Some,
        res matches Ok(models) ==> ids_of(models@) == provider_model_ids(
            json_document(body@).unwrap(),
        ),
        res matches Err(e) ==> json_error_display(e) == json_error_message(body@),
{
    match parse_json(body) {
        Ok(doc) => Ok(provider_models_from_json(&doc)),
        Err(e) => Err(e),
    }
}

/// Reads a provider's answer, and where it is not JSON gives the message
/// that reports it, naming the error and the body.
pub fn decode_provider_models(body: &[u8]) -> (res: Result<Vec<ProviderModel>, String>)
    ensures
        res is Ok <==> json_document(body@) is Some,
        res matches Ok(models) ==> ids_of(models@) == provider_model_ids(
            json_document(body@).unwrap(),
        ),
        res matches Err(message) ==> message@ == decode_failure_text(
            "provider models response"@,
            json_error_message(body@),
            body@,
        ),
{
    match parse_provider_models(body) {
        Ok(models) => Ok(models),
        Err(e) => {
            let error = json_error_text(&e);
            Err(decode_failure_message("provider models response", error.as_str(), body))
        },
    }
}

/// The message for a body that could not be decoded as `subject`.
pub open spec fn decode_failure_text(subject: Seq<char>, error: Seq<char>, body: Seq<u8>) -> Seq<
    char,
> {
    "failed to decode "@ + subject + ": "@ + error + "; body: "@ + utf8_lossy(body)
}

/// The message for a body that could not be decoded as `subject`, given the
/// decoder's error text; the body is shown as lossy UTF-8.
pub fn decode_failure_message(subject: &str, error: &str, body: &[u8]) -> (res: String)
    ensures
        res@ == decode_failure_text(subject@, error@, body@),
{
    let mut message = String::from_str("failed to decode ");
    message.append(subject);
    message.append(": ");
    message.append(error);
    message.append("; body: ");
    let text = lossy_text(body);
    message.append(text.as_str());
    message
}


/// Offering an id keeps a well-formed list well-formed.
pub proof fn lemma_with_id_well_formed(ids: Seq<Seq<char>>, id: Seq<char>)
    requires
        ids_well_formed(ids),
    ensures
        ids_well_formed(with_id(ids, id)),
{
    let t = trim(id);
    lemma_trim_is_trimmed(id);
    if !(t.len() == 0 || ids.contains(t)) {
        let r = ids.push(t);
        assert forall|i: int, j: int| 0 <= i < r.len() && 0 <= j < r.len() && i != j implies r[i]
            != r[j] by {
            if i == ids.len() as int {
                assert(ids[j] == r[j]);
            } else if j == ids.len() as int {
                assert(ids[i] == r[i]);
            }
        }
        assert forall|i: int| 0 <= i < r.len() implies is_trimmed(#[trigger] r[i]) by {
            if i < ids.len() {
                assert(r[i] == ids[i]);
            }
        }
        assert forall|i: int| 0 <= i < r.len() implies (#[trigger] r[i]).len() > 0 by {
            if i < ids.len() {
                assert(r[i] == ids[i]);
            }
        }
    }
}

/// Offering ids in turn keeps a well-formed list well-formed.
pub proof fn lemma_with_offers_well_formed(ids: Seq<Seq<char>>, offers: Seq<Option<Seq<char>>>)
    requires
        ids_well_formed(ids),
    ensures
        ids_well_formed(with_offers(ids, offers)),
    decreases offers.len(),
{
    if offers.len() > 0 {
        lemma_with_offers_well_formed(ids, offers.drop_last());
        if let Some(id) = offers.last() {
            lemma_with_id_well_formed(with_offers(ids, offers.drop_last()), id);
        }
    }
}

/// The ids read from any provider answer are non-empty, carry no whitespace
/// at either end, and are listed once each.
pub proof fn provider_model_ids_well_formed(doc: JsonV)
    ensures
        ids_well_formed(provider_model_ids(doc)),
{
    let empty = Seq::<Seq<char>>::empty();
    assert(ids_well_formed(empty));
    lemma_with_offers_well_formed(empty, data_offers(doc));
    lemma_with_offers_well_formed(empty, models_offers(doc));
}

/// Offering the same id twice leaves the list as offering it once.
pub proof fn with_id_idempotent(ids: Seq<Seq<char>>, id: Seq<char>)
    ensures
        with_id(with_id(ids, id), id) == with_id(ids, id),
{
    let t = trim(id);
    if !(t.len() == 0 || ids.contains(t)) {
        assert(ids.push(t)[ids.len() as int] == t);
    }
}

/// After an id that is not blank is offered, its trimmed form is listed, and
/// every id listed before still is, at the same place.
pub proof fn with_id_lists_id(ids: Seq<Seq<char>>, id: Seq<char>)
    ensures
        trim(id).len() > 0 ==> with_id(ids, id).contains(trim(id)),
        with_id(ids, id).len() >= ids.len(),
        with_id(ids, id).subrange(0, ids.len() as int) == ids,
{
    let t = trim(id);
    if !(t.len() == 0 || ids.contains(t)) {
        assert(ids.push(t)[ids.len() as int] == t);
        assert(ids.push(t).subrange(0, ids.len() as int) =~= ids);
    } else {
        assert(ids.subrange(0, ids.len() as int) =~= ids);
    }
}


/// The `data` list takes precedence: where it yields any id, the ids are
/// exactly those it yields; the `models` list is read only where it yields
/// none.
pub proof fn data_ids_take_precedence(doc: JsonV)
    ensures
        with_offers(Seq::empty(), data_offers(doc)).len() > 0 ==> provider_model_ids(doc)
            == with_offers(Seq::empty(), data_offers(doc)),
        with_offers(Seq::empty(), data_offers(doc)).len() == 0 ==> provider_model_ids(doc)
            == with_offers(Seq::empty(), models_offers(doc)),
{
}


/// An entry of a `models` list is listed by its string `id`; without one,
/// by its string `model`; without either, by its string `name`; and only
/// then by its string `slug`.
pub proof fn models_entry_id_priority(item: JsonV)
    ensures
        item.str_member("id"@) is Some ==> models_entry_id(item) == item.str_member("id"@),
        item.str_member("id"@) is None && item.str_member("model"@) is Some ==> models_entry_id(item)
            == item.str_member("model"@),
        item.str_member("id"@) is None && item.str_member("model"@) is None && item.str_member(
            "name"@,
        ) is Some ==> models_entry_id(item) == item.str_member("name"@),
        item.str_member("id"@) is None && item.str_member("model"@) is None && item.str_member(
            "name"@,
        ) is None ==> models_entry_id(item) == item.str_member("slug"@),
{
}

/// A `models` entry with a `model` and a `name` (and no `id`) is listed by
/// its `model`: the answer `{"models": [{"model": m, "name": n}]}` lists
/// exactly the trimmed `m`, whatever `n` is.
pub proof fn models_entry_model_before_name(m: Seq<char>, n: Seq<char>)
    requires
        trim(m).len() > 0,
    ensures
        provider_model_ids(
            JsonV::Object(
                seq![(
                    "models"@,
                    JsonV::Array(
                        seq![JsonV::Object(seq![("model"@, JsonV::Str(m)), ("name"@, JsonV::Str(n))])],
                    ),
                )],
            ),
        ) == seq![trim(m)],
{
    reveal_strlit("models");
    reveal_strlit("data");
    reveal_strlit("model");
    reveal_strlit("name");
    reveal_strlit("id");
    let item = JsonV::Object(seq![("model"@, JsonV::Str(m)), ("name"@, JsonV::Str(n))]);
    let doc = JsonV::Object(seq![("models"@, JsonV::Array(seq![item]))]);
    let members = seq![("models"@, JsonV::Array(seq![item]))];
    assert("models"@.len() == 6);
    assert("data"@.len() == 4);
    assert("models"@ != "data"@);
    assert(members.drop_first() =~= Seq::<(Seq<char>, JsonV)>::empty());
    assert(members[0].0 == "models"@);
    assert(member(members, "data"@) == member(members.drop_first(), "data"@));
    assert(doc.get("data"@) is None);
    assert(data_offers(doc) =~= Seq::<Option<Seq<char>>>::empty());
    assert(doc.array_member("models"@) == Some(seq![item]));
    let fields = seq![("model"@, JsonV::Str(m)), ("name"@, JsonV::Str(n))];
    assert("model"@.len() == 5);
    assert("name"@.len() == 4);
    assert("id"@.len() == 2);
    assert("model"@ != "id"@);
    assert("name"@ != "id"@);
    assert(fields.drop_first().drop_first() =~= Seq::<(Seq<char>, JsonV)>::empty());
    assert(fields.drop_first() =~= seq![("name"@, JsonV::Str(n))]);
    assert(fields[0].0 == "model"@);
    assert(fields[1].0 == "name"@);
    assert(member(fields, "id"@) == member(fields.drop_first(), "id"@));
    assert(member(fields.drop_first(), "id"@) == member(fields.drop_first().drop_first(), "id"@));
    assert(item.get("id"@) is None);
    assert(item.get("model"@) == Some(JsonV::Str(m)));
    assert(models_entry_id(item) == Some(m));
    assert(models_offers(doc) =~= seq![Some(m)]);
    let offers = seq![Some(m)];
    assert(offers.drop_last() =~= Seq::<Option<Seq<char>>>::empty());
    assert(offers.last() == Some(m));
    assert(with_offers(Seq::<Seq<char>>::empty(), offers.drop_last()) == Seq::<Seq<char>>::empty());
    assert(with_offers(Seq::empty(), offers) == with_id(Seq::empty(), m));
    assert(with_id(Seq::empty(), m) =~= seq![trim(m)]);
}

} // verus!
