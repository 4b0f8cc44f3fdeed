//! Message templates with `{key}` placeholders.
use vstd::prelude::*;
use vstd::string::StrSliceExecFns;
use vstd::string::StringExecFns;

use crate::collections::TextMap;
use crate::text::{chars_of, find_from};
#[allow(unused_imports)]
use crate::text::{find, find_is_first, first_is_find};

verus! {

/// What a placeholder with this key is replaced by: the field's value, or nothing where there is
/// no such field.
pub open spec fn value_of(fields: Map<Seq<char>, Seq<char>>, key: Seq<char>) -> Seq<char> {
    if fields.contains_key(key) {
        fields[key]
    } else {
        Seq::empty()
    }
}

/// The template with its placeholders replaced. A placeholder runs from a `{` to the first `}`
/// after it; a template whose next `{` has no `}` after it stays as it is.
pub open spec fn rendered(template: Seq<char>, fields: Map<Seq<char>, Seq<char>>) -> Seq<char>
    decreases template.len(),
{
    let open = find(template, '{');
    let after = template.skip(open + 1);
    let close = find(after, '}');
    if open >= template.len() || close >= after.len() {
        template
    } else {
        proof {
            find_is_first(template, '{');
            find_is_first(after, '}');
        }
        template.take(open) + value_of(fields, after.take(close)) + rendered(
            after.skip(close + 1),
            fields,
        )
    }
}

/// Renders a template, leaving unknown keys out and an unmatched `{` in place.
pub fn render(template: &str, fields: &TextMap) -> (text: String)
    ensures
        text@ == rendered(template@, fields@),
{
    let chars = chars_of(template);
    let ghost whole = template@;
    let mut out = String::new();
    let mut pos: usize = 0;
    assert(whole.skip(0) == whole);
    loop
        invariant
            chars@ == whole,
            whole == template@,
            pos <= whole.len(),
            rendered(whole, fields@) == out@ + rendered(whole.skip(pos as int), fields@),
        decreases whole.len() - pos,
    {
        let ghost rest = whole.skip(pos as int);
        let open = find_from(&chars, pos, '{');
        if open == chars.len() {
            out.append(template.substring_char(pos, open));
            assert(whole.subrange(pos as int, open as int) == rest);
            return out;
        }
        let close = find_from(&chars, open + 1, '}');
        assert(rest.skip(open - pos + 1) == whole.skip(open + 1));
        if close == chars.len() {
            out.append(template.substring_char(pos, close));
            assert(whole.subrange(pos as int, close as int) == rest);
            return out;
        }
        let key = template.substring_char(open + 1, close);
        out.append(template.substring_char(pos, open));
        if let Some(value) = fields.get(key) {
            out.append(value.as_str());
        }
        proof {
            let after = whole.skip(open + 1);
            assert(rest.take(open - pos) == whole.subrange(pos as int, open as int));
            assert(after.take(close - open - 1) == key@);
            assert(after.skip(close - open - 1 + 1) == whole.skip(close + 1));
            assert(out@ + rendered(whole.skip(close + 1), fields@) == rendered(whole, fields@));
        }
        pos = close + 1;
    }
}

/// Text before the first placeholder is kept as it is, whatever characters it has.
pub proof fn leading_text_is_kept(
    text: Seq<char>,
    template: Seq<char>,
    fields: Map<Seq<char>, Seq<char>>,
)
    requires
        !text.contains('{'),
    ensures
        rendered(text + template, fields) == text + rendered(template, fields),
{
    let whole = text + template;
    let open = find(template, '{');
    find_is_first(template, '{');
    assert forall|i: int| 0 <= i < text.len() + open implies whole[i] != '{' by {
        if i < text.len() {
            assert(text.contains(text[i]));
        } else {
            assert(whole[i] == template[i - text.len()]);
        }
    }
    first_is_find(whole, '{', text.len() + open);
    if open < template.len() {
        assert(whole.skip(text.len() + open + 1) == template.skip(open + 1));
        assert(whole.take(text.len() + open) == text + template.take(open));
    }
    assert(rendered(whole, fields) == text + rendered(template, fields));
}

/// A template without placeholders is the message.
pub proof fn plain_text_is_kept(text: Seq<char>, fields: Map<Seq<char>, Seq<char>>)
    requires
        !text.contains('{'),
    ensures
        rendered(text, fields) == text,
{
    find_is_first(text, '{');
}

/// A placeholder is replaced by its field's value, in which nothing is replaced again, and by
/// nothing where there is no such field; what follows it is rendered by itself.
pub proof fn placeholder_is_replaced(
    key: Seq<char>,
    rest: Seq<char>,
    fields: Map<Seq<char>, Seq<char>>,
)
    requires
        !key.contains('}'),
    ensures
        rendered(seq!['{'] + key + seq!['}'] + rest, fields) == value_of(fields, key) + rendered(
            rest,
            fields,
        ),
        fields.contains_key(key) ==> rendered(seq!['{'] + key + seq!['}'] + rest, fields)
            == fields[key] + rendered(rest, fields),
        !fields.contains_key(key) ==> rendered(seq!['{'] + key + seq!['}'] + rest, fields)
            == rendered(rest, fields),
{
    let whole = seq!['{'] + key + seq!['}'] + rest;
    let after = whole.skip(1);
    assert(after == key + seq!['}'] + rest);
    first_is_find(whole, '{', 0);
    assert forall|i: int| 0 <= i < key.len() implies after[i] != '}' by {
        assert(key.contains(key[i]));
        assert(after[i] == key[i]);
    }
    first_is_find(after, '}', key.len() as int);
    assert(after.take(key.len() as int) == key);
    assert(after.skip(key.len() as int + 1) == rest);
    assert(rendered(whole, fields) == whole.take(0) + value_of(fields, key) + rendered(
        rest,
        fields,
    ));
}

/// A `{` without a `}` after it is kept, and so is all that follows it.
pub proof fn unmatched_brace_is_kept(
    text: Seq<char>,
    tail: Seq<char>,
    fields: Map<Seq<char>, Seq<char>>,
)
    requires
        !text.contains('{'),
        !tail.contains('}'),
    ensures
        rendered(text + seq!['{'] + tail, fields) == text + seq!['{'] + tail,
{
    let rest = seq!['{'] + tail;
    first_is_find(rest, '{', 0);
    assert(rest.skip(1) == tail);
    find_is_first(tail, '}');
    leading_text_is_kept(text, rest, fields);
    assert(text + seq!['{'] + tail == text + rest);
}

/// The keys of a template's placeholders.
pub open spec fn placeholders(template: Seq<char>) -> Set<Seq<char>>
    decreases template.len(),
{
    let open = find(template, '{');
    let after = template.skip(open + 1);
    let close = find(after, '}');
    if open >= template.len() || close >= after.len() {
        Set::empty()
    } else {
        proof {
            find_is_first(template, '{');
            find_is_first(after, '}');
        }
        placeholders(after.skip(close + 1)).insert(after.take(close))
    }
}

/// A message depends on the fields that its template names, and on no others.
pub proof fn only_named_fields_matter(
    template: Seq<char>,
    fields: Map<Seq<char>, Seq<char>>,
    others: Map<Seq<char>, Seq<char>>,
)
    requires
        forall|key: Seq<char>| #[trigger]
            placeholders(template).contains(key) ==> value_of(fields, key) == value_of(others, key),
    ensures
        rendered(template, fields) == rendered(template, others),
    decreases template.len(),
{
    let open = find(template, '{');
    let after = template.skip(open + 1);
    let close = find(after, '}');
    if open < template.len() && close < after.len() {
        find_is_first(template, '{');
        find_is_first(after, '}');
        let rest = after.skip(close + 1);
        assert(placeholders(template).contains(after.take(close)));
        assert forall|key: Seq<char>| #[trigger] placeholders(rest).contains(key) implies value_of(
            fields,
            key,
        ) == value_of(others, key) by {
            assert(placeholders(template).contains(key));
        }
        only_named_fields_matter(rest, fields, others);
    }
}

/// Each `{` of a template that opens a placeholder has its `}`.
pub open spec fn all_closed(template: Seq<char>) -> bool
    decreases template.len(),
{
    let open = find(template, '{');
    let after = template.skip(open + 1);
    let close = find(after, '}');
    if open >= template.len() {
        true
    } else if close >= after.len() {
        false
    } else {
        proof {
            find_is_first(template, '{');
            find_is_first(after, '}');
        }
        all_closed(after.skip(close + 1))
    }
}

/// Two templates in a row render to their messages in a row, unless the first leaves a placeholder
/// open that the second may close.
pub proof fn templates_render_one_by_one(
    first: Seq<char>,
    second: Seq<char>,
    fields: Map<Seq<char>, Seq<char>>,
)
    requires
        all_closed(first),
    ensures
        rendered(first + second, fields) == rendered(first, fields) + rendered(second, fields),
    decreases first.len(),
{
    let open = find(first, '{');
    let after = first.skip(open + 1);
    let close = find(after, '}');
    let whole = first + second;
    find_is_first(first, '{');
    if open >= first.len() {
        leading_text_is_kept(first, second, fields);
    } else {
        find_is_first(after, '}');
        let rest = after.skip(close + 1);
        first_is_find(whole, '{', open);
        assert(whole.skip(open + 1) == after + second);
        first_is_find(after + second, '}', close);
        assert(whole.take(open) == first.take(open));
        assert((after + second).take(close) == after.take(close));
        assert((after + second).skip(close + 1) == rest + second);
        templates_render_one_by_one(rest, second, fields);
        assert(rendered(whole, fields) == rendered(first, fields) + rendered(second, fields));
    }
}

/// A message whose fields hold no `{` has no placeholder left: rendered once more, with whatever
/// fields, it stays as it is.
pub proof fn message_is_final(
    template: Seq<char>,
    fields: Map<Seq<char>, Seq<char>>,
    others: Map<Seq<char>, Seq<char>>,
)
    requires
        forall|key: Seq<char>| #[trigger]
            fields.contains_key(key) ==> !fields[key].contains('{'),
    ensures
        rendered(rendered(template, fields), others) == rendered(template, fields),
    decreases template.len(),
{
    let open = find(template, '{');
    let after = template.skip(open + 1);
    let close = find(after, '}');
    if open < template.len() && close < after.len() {
        find_is_first(template, '{');
        find_is_first(after, '}');
        let rest = after.skip(close + 1);
        message_is_final(rest, fields, others);
        let value = value_of(fields, after.take(close));
        let front = template.take(open) + value;
        assert forall|i: int| 0 <= i < front.len() implies front[i] != '{' by {
            if i >= open {
                assert(front[i] == value[i - open]);
                assert(value.contains(value[i - open]));
            }
        }
        leading_text_is_kept(front, rendered(rest, fields), others);
    }
}

} // verus!
