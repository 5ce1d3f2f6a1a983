use crate::json::{
    is_value_text, lemma_read_quoted, lemma_read_value, push_quoted, quote, read_string,
    read_value,
};
use crate::outcome::{outcome_models, OutcomeModel, StatementOutcome, Status};
use vstd::prelude::*;

verus! {

/// How the optional time stands in an object: not at all, or as the member
/// `time` behind a comma.
pub open spec fn time_text(time: Option<Seq<char>>) -> Seq<char> {
    match time {
        Some(t) => ",\"time\":"@ + quote(t),
        None => Seq::empty(),
    }
}

/// The object that stands for one outcome. Its members come in the order of
/// their names: `result` or `message`, then `status`, then `time`. A value is
/// set in as it is; a message and a time are written as JSON strings.
pub open spec fn object_text(outcome: OutcomeModel) -> Seq<char> {
    match outcome {
        OutcomeModel::Success { result, time } => "{\"result\":"@ + result
            + ",\"status\":\"ok\""@ + time_text(time) + "}"@,
        OutcomeModel::Error { message, time } => "{\"message\":"@ + quote(message)
            + ",\"status\":\"error\""@ + time_text(time) + "}"@,
    }
}

/// The objects of a list of outcomes, in order, with commas between them.
pub open spec fn items_text(outcomes: Seq<OutcomeModel>) -> Seq<char>
    decreases outcomes.len(),
{
    if outcomes.len() == 0 {
        Seq::empty()
    } else if outcomes.len() == 1 {
        object_text(outcomes[0])
    } else {
        object_text(outcomes[0]) + ","@ + items_text(outcomes.drop_first())
    }
}

/// The JSON document that stands for a list of outcomes: an array with one
/// object for each outcome, in order.
pub open spec fn encode_text(outcomes: Seq<OutcomeModel>) -> Seq<char> {
    "["@ + items_text(outcomes) + "]"@
}

/// One more outcome adds its object at the end, behind a comma where it is
/// not the first.
pub proof fn lemma_items_push(outcomes: Seq<OutcomeModel>, last: OutcomeModel)
    ensures
        items_text(outcomes.push(last)) == if outcomes.len() == 0 {
            object_text(last)
        } else {
            items_text(outcomes) + ","@ + object_text(last)
        },
    decreases outcomes.len(),
{
    let all = outcomes.push(last);
    if outcomes.len() == 0 {
        assert(all[0] == last);
    } else if outcomes.len() == 1 {
        assert(all.drop_first() =~= seq![last]);
        assert(seq![last][0] == last);
        assert(items_text(seq![last]) == object_text(last));
        assert(all[0] == outcomes[0]);
    } else {
        lemma_items_push(outcomes.drop_first(), last);
        assert(all.drop_first() =~= outcomes.drop_first().push(last));
        assert(all[0] == outcomes[0]);
        assert(items_text(all) =~= items_text(outcomes) + ","@ + object_text(last));
    }
}

/// Appends the optional time of an object.
fn push_time(out: &mut String, time: &Option<String>)
    ensures
        final(out)@ == old(out)@ + time_text(crate::text::text_of(*time)),
{
    match time {
        Some(t) => {
            out.append(",\"time\":");
            push_quoted(out, t.as_str());
            assert(out@ =~= old(out)@ + time_text(crate::text::text_of(*time)));
        },
        None => {
            assert(out@ =~= old(out)@ + time_text(crate::text::text_of(*time)));
        },
    }
}

/// Appends the object of one outcome.
fn push_object(out: &mut String, outcome: &StatementOutcome)
    ensures
        final(out)@ == old(out)@ + object_text(outcome@),
        outcome@.well_formed(),
{
    match outcome.status() {
        Status::Success => {
            out.append("{\"result\":");
            out.append(outcome.text().as_str());
            out.append(",\"status\":\"ok\"");
            push_time(out, outcome.time());
            out.append("}");
        },
        Status::Error => {
            out.append("{\"message\":");
            push_quoted(out, outcome.text().as_str());
            out.append(",\"status\":\"error\"");
            push_time(out, outcome.time());
            out.append("}");
        },
    }
    assert(out@ =~= old(out)@ + object_text(outcome@));
}

/// Serializes a list of outcomes to the JSON document that the caller of a
/// query gets. Reading the document gives the list back: every status,
/// message, value and time as it was, in the same order.
pub fn encode(outcomes: &Vec<StatementOutcome>) -> (text: String)
    ensures
        text@ == encode_text(outcome_models(outcomes@)),
        decode_text(text@) == Some(outcome_models(outcomes@)),
{
    let mut out = String::new();
    out.append("[");
    let ghost models = outcome_models(outcomes@);
    let mut i: usize = 0;
    assert(models.take(0) =~= Seq::<OutcomeModel>::empty());
    assert(out@ =~= "["@ + items_text(models.take(0)));
    while i < outcomes.len()
        invariant
            i <= outcomes.len(),
            models == outcome_models(outcomes@),
            out@ == "["@ + items_text(models.take(i as int)),
            forall|k: int| 0 <= k < i ==> (#[trigger] models[k]).well_formed(),
        decreases outcomes.len() - i,
    {
        let ghost before = out@;
        if i > 0 {
            out.append(",");
        }
        push_object(&mut out, &outcomes[i]);
        proof {
            lemma_items_push(models.take(i as int), models[i as int]);
            assert(models.take(i + 1) =~= models.take(i as int).push(models[i as int]));
            assert(out@ =~= "["@ + items_text(models.take(i + 1)));
        }
        i += 1;
    }
    out.append("]");
    proof {
        assert(models.take(outcomes.len() as int) =~= models);
        lemma_encode_round_trip(models);
    }
    out
}

/// What is left of `text` behind `word`, where `text` begins with it.
pub open spec fn expect(text: Seq<char>, word: Seq<char>) -> Option<Seq<char>> {
    if word.is_prefix_of(text) {
        Some(text.skip(word.len() as int))
    } else {
        None
    }
}

/// Reads the end of an object: the member `time`, if it is there, and the
/// closing brace. Gives the time and what follows the object.
pub open spec fn read_time(text: Seq<char>) -> Option<(Option<Seq<char>>, Seq<char>)> {
    match expect(text, "}"@) {
        Some(rest) => Some((None, rest)),
        None => match expect(text, ",\"time\":"@) {
            Some(value) => match read_string(value) {
                Some((time, after)) => match expect(after, "}"@) {
                    Some(rest) => Some((Some(time), rest)),
                    None => None,
                },
                None => None,
            },
            None => None,
        },
    }
}

/// Reads one object of the document: the outcome that it stands for, and
/// what follows it.
#[verifier::opaque]
pub open spec fn read_object(text: Seq<char>) -> Option<(OutcomeModel, Seq<char>)> {
    match expect(text, "{\"message\":"@) {
        Some(value) => match read_string(value) {
            Some((message, after)) => match expect(after, ",\"status\":\"error\""@) {
                Some(tail) => match read_time(tail) {
                    Some((time, rest)) => Some((OutcomeModel::Error { message, time }, rest)),
                    None => None,
                },
                None => None,
            },
            None => None,
        },
        None => match expect(text, "{\"result\":"@) {
            Some(value) => match read_value(value) {
                Some((result, after)) => match expect(after, ",\"status\":\"ok\""@) {
                    Some(tail) => match read_time(tail) {
                        Some((time, rest)) => Some((OutcomeModel::Success { result, time }, rest)),
                        None => None,
                    },
                    None => None,
                },
                None => None,
            },
            None => None,
        },
    }
}

/// Reads the objects of an array up to its closing bracket, with which the
/// text must end.
pub open spec fn read_items(text: Seq<char>) -> Option<Seq<OutcomeModel>>
    decreases text.len(),
{
    match read_object(text) {
        Some((first, rest)) => if rest == seq![']'] {
            Some(seq![first])
        } else if 0 < rest.len() <= text.len() && rest[0] == ',' {
            match read_items(rest.drop_first()) {
                Some(others) => Some(seq![first] + others),
                None => None,
            }
        } else {
            None
        },
        None => None,
    }
}

/// Reads a document of outcomes: what a JSON parser finds in it, member by
/// member, where the document has the shape that [`encode_text`] gives.
pub open spec fn decode_text(text: Seq<char>) -> Option<Seq<OutcomeModel>> {
    if text.len() > 0 && text[0] == '[' {
        if text.drop_first() == seq![']'] {
            Some(Seq::empty())
        } else {
            read_items(text.drop_first())
        }
    } else {
        None
    }
}

/// A text that begins with a word is that word and the rest.
pub proof fn lemma_expect(word: Seq<char>, rest: Seq<char>)
    ensures
        expect(word + rest, word) == Some(rest),
{
    assert((word + rest).subrange(0, word.len() as int) =~= word);
    assert((word + rest).skip(word.len() as int) =~= rest);
}

/// A text that begins with another character than a word does not begin
/// with the word.
pub proof fn lemma_expect_other(text: Seq<char>, word: Seq<char>, at: int)
    requires
        0 <= at < word.len(),
        at < text.len() ==> text[at] != word[at],
    ensures
        expect(text, word) is None,
{
    if word.is_prefix_of(text) {
        assert(text.subrange(0, word.len() as int)[at] == word[at]);
    }
}

/// The end of an object reads back as the time it was written for.
pub proof fn lemma_read_time(time: Option<Seq<char>>, rest: Seq<char>)
    ensures
        read_time(time_text(time) + "}"@ + rest) == Some((time, rest)),
{
    reveal_strlit("}");
    reveal_strlit(",\"time\":");
    let text = time_text(time) + "}"@ + rest;
    match time {
        None => {
            assert(text =~= "}"@ + rest);
            lemma_expect("}"@, rest);
        },
        Some(t) => {
            let key = ",\"time\":"@;
            let value = quote(t) + ("}"@ + rest);
            assert(text =~= key + value);
            assert(text[0] == ',');
            lemma_expect_other(text, "}"@, 0);
            lemma_expect(key, value);
            lemma_read_quoted(t, "}"@ + rest);
            lemma_expect("}"@, rest);
        },
    }
}

/// The object of an outcome reads back as the outcome, whatever follows it.
pub proof fn lemma_read_object(outcome: OutcomeModel, rest: Seq<char>)
    requires
        outcome.well_formed(),
    ensures
        read_object(object_text(outcome) + rest) == Some((outcome, rest)),
{
    reveal(read_object);
    reveal_strlit("{\"message\":");
    reveal_strlit("{\"result\":");
    reveal_strlit(",\"status\":\"ok\"");
    reveal_strlit(",\"status\":\"error\"");
    let text = object_text(outcome) + rest;
    match outcome {
        OutcomeModel::Error { message, time } => {
            let key = "{\"message\":"@;
            let status = ",\"status\":\"error\""@;
            let tail = time_text(time) + "}"@ + rest;
            let value = quote(message) + (status + tail);
            assert(text =~= key + value);
            lemma_expect(key, value);
            lemma_read_quoted(message, status + tail);
            lemma_expect(status, tail);
            lemma_read_time(time, rest);
        },
        OutcomeModel::Success { result, time } => {
            let key = "{\"result\":"@;
            let status = ",\"status\":\"ok\""@;
            let tail = time_text(time) + "}"@ + rest;
            let value = result + (status + tail);
            assert(text =~= key + value);
            assert(text[2] == 'r');
            lemma_expect_other(text, "{\"message\":"@, 2);
            lemma_expect(key, value);
            assert((status + tail)[0] == ',');
            lemma_read_value(result, status + tail);
            lemma_expect(status, tail);
            lemma_read_time(time, rest);
        },
    }
}

/// No object is empty.
pub proof fn lemma_object_not_empty(outcome: OutcomeModel)
    ensures
        object_text(outcome).len() > 0,
{
    reveal_strlit("}");
}

/// The objects of a list that is not empty, closed by a bracket, read back
/// as the list.
pub proof fn lemma_read_items(outcomes: Seq<OutcomeModel>)
    requires
        outcomes.len() > 0,
        forall|i: int| 0 <= i < outcomes.len() ==> (#[trigger] outcomes[i]).well_formed(),
    ensures
        read_items(items_text(outcomes) + seq![']']) == Some(outcomes),
    decreases outcomes.len(),
{
    let first = outcomes[0];
    let text = items_text(outcomes) + seq![']'];
    let written = object_text(first);
    lemma_object_not_empty(first);
    if outcomes.len() == 1 {
        assert(text =~= written + seq![']']);
        lemma_read_object(first, seq![']']);
        assert(read_object(text) == Some((first, seq![']'])));
        assert(seq![first] =~= outcomes);
    } else {
        let others = outcomes.drop_first();
        let after = items_text(others) + seq![']'];
        let rest = ","@ + after;
        assert(rest.len() >= 2 && rest[0] == ',' && rest.drop_first() =~= after) by {
            reveal_strlit(",");
        }
        assert(items_text(outcomes) == written + ","@ + items_text(others));
        assert(text =~= written + rest);
        lemma_read_object(first, rest);
        assert(read_object(text) == Some((first, rest)));
        assert(rest != seq![']']);
        assert(rest.len() <= text.len());
        assert forall|i: int| 0 <= i < others.len() implies (#[trigger] others[i]).well_formed() by {
            assert(others[i] == outcomes[i + 1]);
        }
        lemma_read_items(others);
        assert(read_items(rest.drop_first()) == Some(others));
        assert(seq![first] + others =~= outcomes);
    }
}

/// Reading the document that stands for a list of outcomes gives the list
/// back: every status, message, value and time as it was, in the same order.
/// It holds of every list whose values are each the text of one JSON value.
pub proof fn lemma_encode_round_trip(outcomes: Seq<OutcomeModel>)
    requires
        forall|i: int| 0 <= i < outcomes.len() ==> (#[trigger] outcomes[i]).well_formed(),
    ensures
        decode_text(encode_text(outcomes)) == Some(outcomes),
{
    reveal_strlit("[");
    reveal_strlit("]");
    let text = encode_text(outcomes);
    assert("]"@ =~= seq![']']);
    assert(text[0] == '[');
    assert(text.drop_first() =~= items_text(outcomes) + seq![']']);
    if outcomes.len() == 0 {
        assert(text.drop_first() =~= seq![']']);
        assert(outcomes =~= Seq::<OutcomeModel>::empty());
    } else {
        lemma_object_not_empty(outcomes[0]);
        reveal_strlit("{\"message\":");
        reveal_strlit("{\"result\":");
        assert(object_text(outcomes[0])[0] == '{');
        assert(items_text(outcomes)[0] == '{');
        assert(text.drop_first()[0] == '{');
        lemma_read_items(outcomes);
    }
}

} // verus!
