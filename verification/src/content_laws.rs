//! Which content, controls and updates are accepted, and what is noted of them.
use crate::codec::{base64_text, url_parts};
use crate::json::JsonModel;
use crate::semantic::{
    add_items, add_values, config_option_problem, config_options_problem, config_reference_problem,
    content_block_problem, first_of, is_mime_type, mime_family, mode_offered, mode_problem, offers,
    option_with_id, path_problem, prompt_response_problem, seen_before, select_option_problem,
    session_controls_problem, session_modes_problem, uri_problem, value_offered, Selectable,
};
use crate::session_update::{
    command_problem, location_problem, option_ids, permission_option_problem, permission_problem,
    terminals_of, tool_content_problem, tool_update_problem, update_counted, update_problem,
    SemanticModel,
};
use crate::text::{equal_ignoring_case, utf16_len};
use vstd::prelude::*;

verus! {

proof fn lemma_all_pass(count: nat, check: spec_fn(int) -> Option<Seq<char>>)
    ensures
        first_of(count, check) is None <==> forall|i: int| 0 <= i < count ==> #[trigger] check(i)
            is None,
    decreases count,
{
    if count > 0 {
        lemma_all_pass((count - 1) as nat, check);
        if first_of(count, check) is None {
            assert forall|i: int| 0 <= i < count implies #[trigger] check(i) is None by {
            }
        } else if forall|i: int| 0 <= i < count ==> #[trigger] check(i) is None {
            assert(check(count - 1) is None);
            assert forall|i: int| 0 <= i < count - 1 implies #[trigger] check(i) is None by {
            }
        }
    }
}

/// Whether a value has a text under a key.
pub open spec fn has_text(value: JsonModel, key: Seq<char>) -> bool {
    value.get(key) matches Some(JsonModel::String(_))
}

/// Whether a value has a text that is not empty under a key.
pub open spec fn has_name(value: JsonModel, key: Seq<char>) -> bool {
    value.get(key) matches Some(JsonModel::String(text)) && text.len() > 0
}

/// Whether a value has a text, null or nothing under a key.
pub open spec fn may_have_text(value: JsonModel, key: Seq<char>) -> bool {
    match value.get(key) {
        None => true,
        Some(JsonModel::Null) => true,
        Some(JsonModel::String(_)) => true,
        _ => false,
    }
}

/// The text under a key.
pub open spec fn text_under(value: JsonModel, key: Seq<char>) -> Seq<char> {
    match value.get(key) {
        Some(JsonModel::String(text)) => text,
        _ => Seq::empty(),
    }
}

/// Whether a value is a whole number that every reader of JSON keeps exactly.
pub open spec fn is_exact_count(value: JsonModel) -> bool {
    value matches JsonModel::Integer(number) && 0 <= number <= 9007199254740991
}

/// Whether a text is the base64 form of some bytes.
pub open spec fn encodes_bytes(text: Seq<char>) -> bool {
    exists|bytes: Seq<u8>| #[trigger] base64_text(bytes) == text
}

/// Whether a text is a URI.
pub open spec fn is_uri(text: Seq<char>) -> bool {
    text.len() > 0 && url_parts(text) is Some
}

/// Whether a media type belongs to a family.
pub open spec fn is_of_family(text: Seq<char>, family: Seq<char>) -> bool {
    is_mime_type(text) && equal_ignoring_case(mime_family(text), family)
}

/// Whether the annotations of a block are well formed.
pub open spec fn has_good_annotations(block: JsonModel) -> bool {
    match block.get("annotations"@) {
        None => true,
        Some(JsonModel::Null) => true,
        Some(notes) => notes is Object && match notes.get("priority"@) {
            None => true,
            Some(JsonModel::Null) => true,
            Some(priority) => priority is Integer || priority is Decimal,
        } && may_have_text(notes, "lastModified"@),
    }
}

/// Whether a block is good content: a text, an image, a sound, a link to a
/// resource or a resource, each with what it needs.
pub open spec fn is_good_block(block: JsonModel) -> bool {
    let kind = text_under(block, "type"@);
    &&& block is Object
    &&& has_good_annotations(block)
    &&& has_text(block, "type"@)
    &&& {
        ||| kind == "text"@
        ||| kind == "image"@ && has_text(block, "data"@) && encodes_bytes(
            text_under(block, "data"@),
        ) && has_text(block, "mimeType"@) && is_of_family(
            text_under(block, "mimeType"@),
            "image"@,
        ) && may_have_text(block, "uri"@) && (has_text(block, "uri"@) ==> is_uri(
            text_under(block, "uri"@),
        ))
        ||| kind == "audio"@ && has_text(block, "data"@) && encodes_bytes(
            text_under(block, "data"@),
        ) && has_text(block, "mimeType"@) && is_of_family(
            text_under(block, "mimeType"@),
            "audio"@,
        )
        ||| kind == "resource_link"@ && has_text(block, "uri"@) && is_uri(
            text_under(block, "uri"@),
        ) && has_text(block, "name"@) && may_have_text(block, "title"@) && may_have_text(
            block,
            "description"@,
        ) && may_have_text(block, "mimeType"@) && (has_text(block, "mimeType"@) ==> is_mime_type(
            text_under(block, "mimeType"@),
        )) && match block.get("size"@) {
            None => true,
            Some(JsonModel::Null) => true,
            Some(size) => is_exact_count(size),
        }
        ||| kind == "resource"@ && (block.get("resource"@) matches Some(resource) && {
            &&& resource is Object
            &&& has_text(resource, "uri"@) && is_uri(text_under(resource, "uri"@))
            &&& has_text(resource, "mimeType"@) ==> is_mime_type(
                text_under(resource, "mimeType"@),
            )
            &&& has_text(resource, "blob"@) ==> encodes_bytes(text_under(resource, "blob"@))
        })
    }
}

/// Content is accepted exactly where it is good.
pub proof fn law_good_content_is_accepted(block: JsonModel, subject: Seq<char>)
    ensures
        content_block_problem(block, subject) is None <==> is_good_block(block),
{
    reveal_strlit("text");
    reveal_strlit("image");
    reveal_strlit("audio");
    reveal_strlit("resource_link");
    reveal_strlit("resource");
    assert("text"@.len() == 4);
    assert("image"@.len() == 5);
    assert("audio"@.len() == 5);
    assert("resource_link"@.len() == 13);
    assert("resource"@.len() == 8);
    assert("image"@[0] == 'i');
    assert("audio"@[0] == 'a');
}

/// A path is accepted where it has no null character and begins at the root: with
/// a slash, with two backslashes, or with a drive.
pub proof fn law_absolute_paths_are_accepted(path: Seq<char>, subject: Seq<char>)
    ensures
        path_problem(path, subject) is None <==> !path.contains('\0') && {
            ||| path.len() >= 1 && path[0] == '/'
            ||| path.len() >= 2 && path[0] == '\\' && path[1] == '\\'
            ||| path.len() >= 3 && (('a' <= path[0] && path[0] <= 'z') || ('A' <= path[0]
                && path[0] <= 'Z')) && path[1] == ':' && (path[2] == '/' || path[2] == '\\')
        },
        uri_problem(path, subject) is None <==> is_uri(path),
{
}

/// The number of tokens that a usage tells under a name.
pub open spec fn tokens(usage: JsonModel, name: Seq<char>) -> int {
    match usage.get(name) {
        Some(JsonModel::Integer(number)) => number,
        _ => 0,
    }
}

/// Whether a part of a usage is not told, or is a count within the whole.
pub open spec fn is_part(usage: JsonModel, name: Seq<char>, total: int) -> bool {
    match usage.get(name) {
        None => true,
        Some(JsonModel::Null) => true,
        Some(count) => is_exact_count(count) && tokens(usage, name) <= total,
    }
}

/// What a turn used is accepted exactly where it tells the whole, no part is more
/// than the whole, and what went in and what came out are not either together.
pub proof fn law_consistent_usage_is_accepted(response: JsonModel)
    ensures
        prompt_response_problem(response) is None <==> match response.get("usage"@) {
            None => true,
            Some(JsonModel::Null) => true,
            Some(usage) => {
                let total = tokens(usage, "totalTokens"@);
                &&& usage.get("totalTokens"@) matches Some(count) && is_exact_count(count)
                &&& is_part(usage, "inputTokens"@, total)
                &&& is_part(usage, "outputTokens"@, total)
                &&& is_part(usage, "thoughtTokens"@, total)
                &&& is_part(usage, "cachedReadTokens"@, total)
                &&& is_part(usage, "cachedWriteTokens"@, total)
                &&& tokens(usage, "inputTokens"@) + tokens(usage, "outputTokens"@) <= total
            },
        },
{
}

/// Whether no two items have one text under a key.
pub open spec fn all_named_apart(items: Seq<JsonModel>, key: Seq<char>) -> bool {
    forall|i: int, j: int|
        0 <= i < j < items.len() && has_text(#[trigger] items[i], key) ==> items[i].get(key)
            != (#[trigger] items[j]).get(key)
}

/// Modes are accepted exactly where there is one at least, each has an identifier
/// of its own and a name, and the current one is among them.
pub proof fn law_consistent_modes_are_accepted(modes: JsonModel)
    ensures
        session_modes_problem(modes) is None <==> (modes.get("availableModes"@) matches Some(
            JsonModel::Array(available),
        ) && {
            &&& available.len() > 0
            &&& forall|i: int|
                0 <= i < available.len() ==> has_name(#[trigger] available[i], "id"@) && has_name(
                    available[i],
                    "name"@,
                )
            &&& all_named_apart(available, "id"@)
            &&& has_text(modes, "currentModeId"@)
            &&& exists|i: int|
                0 <= i < available.len() && (#[trigger] available[i]).get("id"@) == modes.get(
                    "currentModeId"@,
                )
        }),
        forall|mode: Seq<char>|
            mode_offered(Some(modes), mode) <==> (modes.get("availableModes"@) matches Some(
                JsonModel::Array(available),
            ) && exists|i: int|
                0 <= i < available.len() && (#[trigger] available[i]).get("id"@) == Some(
                    JsonModel::String(mode),
                )),
        forall|mode: Seq<char>| !mode_offered(None, mode),
{
    if let Some(JsonModel::Array(available)) = modes.get("availableModes"@) {
        let check = |i: int| mode_problem(available, i);
        lemma_all_pass(available.len(), check);
        assert forall|i: int| 0 <= i < available.len() implies ((#[trigger] check(i)) is None <==> {
            &&& has_name(available[i], "id"@)
            &&& has_name(available[i], "name"@)
            &&& forall|j: int|
                0 <= j < i ==> (#[trigger] available[j]).get("id"@) != available[i].get("id"@)
        }) by {
            lemma_seen_before(available, i, "id"@);
        }
        if session_modes_problem(modes) is None {
            assert forall|i: int, j: int|
                0 <= i < j < available.len() && has_text(
                    #[trigger] available[i],
                    "id"@,
                ) implies available[i].get("id"@) != (#[trigger] available[j]).get("id"@) by {
                assert(check(j) is None);
            }
            assert forall|i: int| 0 <= i < available.len() implies has_name(
                #[trigger] available[i],
                "id"@,
            ) && has_name(available[i], "name"@) by {
                assert(check(i) is None);
            }
        } else if (forall|i: int|
            0 <= i < available.len() ==> has_name(#[trigger] available[i], "id"@) && has_name(
                available[i],
                "name"@,
            )) && all_named_apart(available, "id"@) {
            assert forall|i: int| 0 <= i < available.len() implies (#[trigger] check(i))
                is None by {
                assert(has_name(available[i], "id"@));
                assert forall|j: int| 0 <= j < i implies (#[trigger] available[j]).get("id"@)
                    != available[i].get("id"@) by {
                    assert(has_name(available[j], "id"@));
                }
            }
        }
    }
}

proof fn lemma_seen_before(items: Seq<JsonModel>, at: int, key: Seq<char>)
    requires
        0 <= at < items.len(),
    ensures
        has_text(items[at], key) ==> (seen_before(items, at, key, text_under(items[at], key))
            <==> exists|j: int| 0 <= j < at && (#[trigger] items[j]).get(key)
                == items[at].get(key)),
{
    if has_text(items[at], key) {
        if seen_before(items, at, key, text_under(items[at], key)) {
            let j = choose|j: int|
                0 <= j < at && (#[trigger] items[j]).text_at(key) == Some(
                    text_under(items[at], key),
                );
            assert(items[j].get(key) == items[at].get(key));
        }
        if exists|j: int| 0 <= j < at && (#[trigger] items[j]).get(key) == items[at].get(key) {
            let j = choose|j: int|
                0 <= j < at && (#[trigger] items[j]).get(key) == items[at].get(key);
            assert(items[j].text_at(key) == Some(text_under(items[at], key)));
        }
    }
}

/// Controls are accepted exactly where the modes are, if there are any, and the
/// options are a list of options with identifiers of their own and names, each of
/// them well formed by its type.
pub proof fn law_consistent_controls_are_accepted(
    modes: Option<JsonModel>,
    options: Option<JsonModel>,
)
    ensures
        session_controls_problem(modes, options) is None <==> {
            &&& modes matches Some(modes) ==> modes is Null || session_modes_problem(modes) is None
            &&& options matches Some(options) ==> options is Null || config_options_problem(options)
                is None
        },
        options matches Some(JsonModel::Array(items)) ==> (config_options_problem(options->0)
            is None ==> (forall|i: int|
            0 <= i < items.len() ==> has_name(#[trigger] items[i], "id"@) && has_name(
                items[i],
                "name"@,
            )) && all_named_apart(items, "id"@)),
        options matches Some(options) ==> (config_options_problem(options) is None
            ==> options is Array),
{
    if let Some(JsonModel::Array(items)) = options {
        if config_options_problem(options->0) is None {
            let check = |i: int| config_option_problem(items, i);
            lemma_all_pass(items.len(), check);
            assert forall|i: int| 0 <= i < items.len() implies has_name(
                #[trigger] items[i],
                "id"@,
            ) && has_name(items[i], "name"@) by {
                assert(check(i) is None);
            }
            assert forall|i: int, j: int|
                0 <= i < j < items.len() && has_text(#[trigger] items[i],
                    "id"@) implies items[i].get(
                "id"@,
            ) != (#[trigger] items[j]).get("id"@) by {
                assert(check(j) is None);
                lemma_seen_before(items, j, "id"@);
            }
        }
    }
}

/// The values that items offer: each item itself, or, where it is a group, those in it.
pub open spec fn choices(items: Seq<JsonModel>) -> Seq<JsonModel>
    decreases items.len(),
{
    if items.len() == 0 {
        Seq::empty()
    } else {
        choices(items.drop_last()) + match items.last().get("options"@) {
            Some(JsonModel::Array(nested)) => nested,
            _ => seq![items.last()],
        }
    }
}

/// The groups among items.
pub open spec fn groups_of(items: Seq<JsonModel>) -> Seq<JsonModel>
    decreases items.len(),
{
    if items.len() == 0 {
        Seq::empty()
    } else {
        groups_of(items.drop_last()) + match items.last().get("options"@) {
            Some(JsonModel::Array(_)) => seq![items.last()],
            _ => Seq::empty(),
        }
    }
}

/// The texts that items have under a key.
pub open spec fn texts_under(items: Seq<JsonModel>, key: Seq<char>) -> Seq<Seq<char>> {
    Seq::new(items.len(), |i: int| text_under(items[i], key))
}

/// Whether every item has a name, and a text that is not empty under a key.
pub open spec fn all_named(items: Seq<JsonModel>, key: Seq<char>) -> bool {
    forall|i: int|
        0 <= i < items.len() ==> has_name(#[trigger] items[i], key) && has_name(items[i], "name"@)
}

/// Whether every group holds a value.
pub open spec fn all_filled(groups: Seq<JsonModel>) -> bool {
    forall|i: int|
        0 <= i < groups.len() ==> ((#[trigger] groups[i]).get("options"@) matches Some(
            JsonModel::Array(nested),
        ) && nested.len() > 0)
}

proof fn lemma_named_more(items: Seq<JsonModel>, item: JsonModel, key: Seq<char>)
    ensures
        all_named(items.push(item), key) <==> all_named(items, key) && has_name(item, key)
            && has_name(item, "name"@),
        texts_under(items.push(item), key) == texts_under(items, key).push(text_under(item, key)),
{
    let more = items.push(item);
    assert(texts_under(more, key) =~= texts_under(items, key).push(text_under(item, key)));
    assert(more[items.len() as int] == item);
    if all_named(more, key) {
        assert forall|i: int| 0 <= i < items.len() implies has_name(#[trigger] items[i], key)
            && has_name(items[i], "name"@) by {
            assert(more[i] == items[i]);
        }
    }
    if all_named(items, key) && has_name(item, key) && has_name(item, "name"@) {
        assert forall|i: int| 0 <= i < more.len() implies has_name(#[trigger] more[i], key)
            && has_name(more[i], "name"@) by {
            if i < items.len() {
                assert(more[i] == items[i]);
            }
        }
    }
}

proof fn lemma_distinct_more(texts: Seq<Seq<char>>, text: Seq<char>)
    ensures
        texts.push(text).no_duplicates() <==> texts.no_duplicates() && !texts.contains(text),
{
    let more = texts.push(text);
    if more.no_duplicates() {
        assert forall|i: int, j: int|
            0 <= i < texts.len() && 0 <= j < texts.len() && i != j implies texts[i] != texts[j] by {
            assert(more[i] == texts[i] && more[j] == texts[j]);
        }
        assert forall|i: int| 0 <= i < texts.len() implies texts[i] != text by {
            assert(more[i] == texts[i] && more[texts.len() as int] == text);
        }
    }
    if texts.no_duplicates() && !texts.contains(text) {
        assert forall|i: int, j: int|
            0 <= i < more.len() && 0 <= j < more.len() && i != j implies more[i] != more[j] by {
            if i < texts.len() {
                assert(texts.contains(texts[i]));
            }
            if j < texts.len() {
                assert(texts.contains(texts[j]));
            }
        }
    }
}

proof fn lemma_values_added(
    config_id: Seq<char>,
    known: Seq<JsonModel>,
    groups: Seq<Seq<char>>,
    options: Seq<JsonModel>,
    count: nat,
)
    requires
        count <= options.len(),
        all_named(known, "value"@),
        texts_under(known, "value"@).no_duplicates(),
    ensures
        ({
            let all = known + options.take(count as int);
            let added = add_values(
                config_id,
                Selectable::Known { values: texts_under(known, "value"@), groups },
                options,
                count,
            );
            &&& added is Known <==> all_named(all, "value"@) && texts_under(
                all,
                "value"@,
            ).no_duplicates()
            &&& added is Known ==> added == (Selectable::Known {
                values: texts_under(all, "value"@),
                groups,
            })
        }),
    decreases count,
{
    let all = known + options.take(count as int);
    if count == 0 {
        assert(all =~= known);
    } else {
        let less = (count - 1) as nat;
        let before = known + options.take(less as int);
        lemma_values_added(config_id, known, groups, options, less);
        assert(all =~= before.push(options[count - 1]));
        lemma_named_more(before, options[count - 1], "value"@);
        lemma_distinct_more(
            texts_under(before, "value"@),
            text_under(options[count - 1], "value"@),
        );
    }
}

/// Whether what is offered is in order: each value and each group has a text of its
/// own and a name, and each group holds a value.
pub open spec fn offers_in_order(items: Seq<JsonModel>) -> bool {
    &&& all_named(choices(items), "value"@)
    &&& texts_under(choices(items), "value"@).no_duplicates()
    &&& all_named(groups_of(items), "group"@)
    &&& texts_under(groups_of(items), "group"@).no_duplicates()
    &&& all_filled(groups_of(items))
}

#[verifier::spinoff_prover]
proof fn lemma_items_added(config_id: Seq<char>, items: Seq<JsonModel>, count: nat)
    requires
        count <= items.len(),
    ensures
        ({
            let seen = items.take(count as int);
            let added = add_items(config_id, items, count);
            &&& added is Known <==> offers_in_order(seen)
            &&& added is Known ==> added == (Selectable::Known {
                values: texts_under(choices(seen), "value"@),
                groups: texts_under(groups_of(seen), "group"@),
            })
        }),
    decreases count,
{
    let seen = items.take(count as int);
    if count == 0 {
        assert(texts_under(choices(seen), "value"@) =~= Seq::empty());
        assert(texts_under(groups_of(seen), "group"@) =~= Seq::empty());
    } else {
        let less = (count - 1) as nat;
        let before = items.take(less as int);
        let item = items[count - 1];
        lemma_items_added(config_id, items, less);
        assert(seen.drop_last() =~= before);
        assert(seen.last() == item);
        let known = choices(before);
        let groups = groups_of(before);
        match item.get("options"@) {
            Some(JsonModel::Array(nested)) => {
                assert(groups_of(seen) =~= groups.push(item));
                lemma_named_more(groups, item, "group"@);
                lemma_distinct_more(texts_under(groups, "group"@), text_under(item, "group"@));
                lemma_filled_more(groups, item);
                assert(choices(seen) == known + nested);
                assert(nested.take(nested.len() as int) =~= nested);
                if offers_in_order(before) {
                    lemma_values_added(
                        config_id,
                        known,
                        texts_under(groups, "group"@).push(text_under(item, "group"@)),
                        nested,
                        nested.len(),
                    );
                } else {
                    lemma_first_part(known, nested);
                }
            },
            _ => {
                assert(groups_of(seen) =~= groups);
                assert(choices(seen) == known + seq![item]);
                assert(seq![item].take(1) =~= seq![item]);
                if offers_in_order(before) {
                    lemma_values_added(
                        config_id,
                        known,
                        texts_under(groups, "group"@),
                        seq![item],
                        1,
                    );
                } else {
                    lemma_first_part(known, seq![item]);
                }
            },
        }
    }
}

proof fn lemma_filled_more(groups: Seq<JsonModel>, item: JsonModel)
    ensures
        all_filled(groups.push(item)) <==> all_filled(groups) && (item.get("options"@) matches Some(
            JsonModel::Array(nested),
        ) && nested.len() > 0),
{
    let more = groups.push(item);
    assert(more[groups.len() as int] == item);
    if all_filled(more) {
        assert forall|i: int| 0 <= i < groups.len() implies ((#[trigger] groups[i]).get(
            "options"@,
        ) matches Some(JsonModel::Array(nested)) && nested.len() > 0) by {
            assert(more[i] == groups[i]);
        }
    }
}

proof fn lemma_first_part(a: Seq<JsonModel>, b: Seq<JsonModel>)
    ensures
        all_named(a + b, "value"@) ==> all_named(a, "value"@),
        texts_under(a + b, "value"@).no_duplicates() ==> texts_under(a, "value"@).no_duplicates(),
{
    let all = a + b;
    if all_named(all, "value"@) {
        assert forall|i: int| 0 <= i < a.len() implies has_name(#[trigger] a[i], "value"@)
            && has_name(a[i], "name"@) by {
            assert(all[i] == a[i]);
        }
    }
    if texts_under(all, "value"@).no_duplicates() {
        let less = texts_under(a, "value"@);
        let more = texts_under(all, "value"@);
        assert forall|i: int, j: int|
            0 <= i < less.len() && 0 <= j < less.len() && i != j implies less[i] != less[j] by {
            assert(more[i] == less[i] && more[j] == less[j]);
        }
    }
}

/// An option to select from is accepted exactly where it offers a value at least, what
/// it offers is in order, and its current value is among what it offers.
pub proof fn law_selectable_options_are_accepted(option: JsonModel, config_id: Seq<char>)
    ensures
        select_option_problem(option, config_id) is None <==> (option.get("options"@) matches Some(
            JsonModel::Array(items),
        ) && items.len() > 0 && offers_in_order(items) && has_text(option, "currentValue"@)
            && exists|i: int|
            0 <= i < choices(items).len() && (#[trigger] choices(items)[i]).get("value"@)
                == option.get("currentValue"@)),
{
    if let Some(JsonModel::Array(items)) = option.get("options"@) {
        lemma_items_added(config_id, items, items.len());
        assert(items.take(items.len() as int) =~= items);
        if offers_in_order(items) && has_text(option, "currentValue"@) {
            let wanted = text_under(option, "currentValue"@);
            let values = texts_under(choices(items), "value"@);
            if values.contains(wanted) {
                let i = choose|i: int| 0 <= i < values.len() && values[i] == wanted;
                assert(has_name(choices(items)[i], "value"@));
                assert(choices(items)[i].get("value"@) == option.get("currentValue"@));
            }
            if exists|i: int|
                0 <= i < choices(items).len() && (#[trigger] choices(items)[i]).get("value"@)
                    == option.get("currentValue"@) {
                let i = choose|i: int|
                    0 <= i < choices(items).len() && (#[trigger] choices(items)[i]).get("value"@)
                        == option.get("currentValue"@);
                assert(values[i] == wanted);
            }
        }
    }
}

/// Options are accepted exactly where they are a list, each with an identifier of its
/// own and a name, and those to select from are in order.
pub proof fn law_options_are_accepted(items: Seq<JsonModel>)
    ensures
        config_options_problem(JsonModel::Array(items)) is None <==> all_named(items, "id"@)
            && all_named_apart(items, "id"@) && forall|i: int|
            0 <= i < items.len() && (#[trigger] items[i]).get("type"@) == Some(
                JsonModel::String("select"@),
            ) ==> select_option_problem(items[i], text_under(items[i], "id"@)) is None,
{
    let check = |i: int| config_option_problem(items, i);
    lemma_all_pass(items.len(), check);
    assert forall|i: int| 0 <= i < items.len() implies ((#[trigger] check(i)) is None <==> {
        &&& has_name(items[i], "id"@)
        &&& has_name(items[i], "name"@)
        &&& forall|j: int| 0 <= j < i ==> (#[trigger] items[j]).get("id"@) != items[i].get("id"@)
        &&& items[i].get("type"@) == Some(JsonModel::String("select"@)) ==> select_option_problem(
            items[i],
            text_under(items[i], "id"@),
        ) is None
    }) by {
        lemma_seen_before(items, i, "id"@);
    }
    if config_options_problem(JsonModel::Array(items)) is None {
        assert forall|i: int| 0 <= i < items.len() implies has_name(#[trigger] items[i], "id"@)
            && has_name(items[i], "name"@) by {
            assert(check(i) is None);
        }
        assert forall|i: int, j: int|
            0 <= i < j < items.len() && has_text(#[trigger] items[i], "id"@) implies items[i].get(
            "id"@,
        ) != (#[trigger] items[j]).get("id"@) by {
            assert(check(j) is None);
        }
        assert forall|i: int|
            0 <= i < items.len() && (#[trigger] items[i]).get("type"@) == Some(
                JsonModel::String("select"@),
            ) implies select_option_problem(items[i], text_under(items[i], "id"@)) is None by {
            assert(check(i) is None);
        }
    } else if all_named(items, "id"@) && all_named_apart(items, "id"@) && (forall|i: int|
        0 <= i < items.len() && (#[trigger] items[i]).get("type"@) == Some(
            JsonModel::String("select"@),
        ) ==> select_option_problem(items[i], text_under(items[i], "id"@)) is None) {
        assert forall|i: int| 0 <= i < items.len() implies (#[trigger] check(i)) is None by {
            assert(has_name(items[i], "id"@));
            assert forall|j: int| 0 <= j < i implies (#[trigger] items[j]).get("id"@)
                != items[i].get("id"@) by {
                assert(has_name(items[j], "id"@));
            }
        }
    }
}

proof fn lemma_option_is_found(items: Seq<JsonModel>, id: Seq<char>, at: int)
    requires
        0 <= at < items.len(),
        items[at].get("id"@) == Some(JsonModel::String(id)),
        forall|j: int| 0 <= j < at ==> (#[trigger] items[j]).get("id"@) != Some(
            JsonModel::String(id),
        ),
    ensures
        option_with_id(items, id) == Some(items[at]),
    decreases items.len(),
{
    if at > 0 {
        assert(items[0].get("id"@) != Some(JsonModel::String(id)));
        let rest = items.drop_first();
        assert forall|j: int| 0 <= j < at - 1 implies (#[trigger] rest[j]).get("id"@) != Some(
            JsonModel::String(id),
        ) by {
            assert(rest[j] == items[j + 1]);
        }
        lemma_option_is_found(rest, id, at - 1);
    }
}

proof fn lemma_option_is_missing(items: Seq<JsonModel>, id: Seq<char>)
    requires
        forall|j: int| 0 <= j < items.len() ==> (#[trigger] items[j]).get("id"@) != Some(
            JsonModel::String(id),
        ),
    ensures
        option_with_id(items, id) is None,
    decreases items.len(),
{
    if items.len() > 0 {
        assert(items[0].get("id"@) != Some(JsonModel::String(id)));
        let rest = items.drop_first();
        assert forall|j: int| 0 <= j < rest.len() implies (#[trigger] rest[j]).get("id"@) != Some(
            JsonModel::String(id),
        ) by {
            assert(rest[j] == items[j + 1]);
        }
        lemma_option_is_missing(rest, id);
    }
}

/// Whether an option to select from offers a value, by itself or in a group.
pub open spec fn offers_value(option: JsonModel, value: JsonModel) -> bool {
    option.get("options"@) matches Some(JsonModel::Array(items)) && exists|i: int|
        0 <= i < items.len() && ((#[trigger] items[i]).get("value"@) == Some(value) || (
        items[i].get("options"@) matches Some(JsonModel::Array(nested)) && exists|j: int|
            0 <= j < nested.len() && (#[trigger] nested[j]).get("value"@) == Some(value)))
}

/// An option may be set to a value exactly where it is offered: a switch to a
/// truth value, and one to select from to a text that it offers.
pub proof fn law_offered_values_may_be_set(
    items: Seq<JsonModel>,
    config_id: Seq<char>,
    value: JsonModel,
    at: int,
)
    requires
        0 <= at <= items.len(),
        at < items.len() ==> items[at].get("id"@) == Some(JsonModel::String(config_id)),
        forall|j: int| 0 <= j < at ==> (#[trigger] items[j]).get("id"@) != Some(
            JsonModel::String(config_id),
        ),
    ensures
        config_reference_problem(JsonModel::Array(items), config_id, value) is None <==> at
            < items.len() && {
            ||| items[at].get("type"@) == Some(JsonModel::String("boolean"@)) && value is Bool
            ||| items[at].get("type"@) == Some(JsonModel::String("select"@)) && value is String
                && offers_value(items[at], value)
        },
{
    reveal_strlit("boolean");
    reveal_strlit("select");
    assert("boolean"@.len() == 7);
    assert("select"@.len() == 6);
    if at < items.len() {
        lemma_option_is_found(items, config_id, at);
        if let JsonModel::String(text) = value {
            if let Some(JsonModel::Array(choices)) = items[at].get("options"@) {
                if value_offered(items[at], text) {
                    let i = choose|i: int|
                        0 <= i < choices.len() && ((#[trigger] choices[i]).text_at("value"@)
                            == Some(text) || (choices[i].array_at("options"@) matches Some(nested)
                            && offers(nested, "value"@, text)));
                    if choices[i].text_at("value"@) == Some(text) {
                        assert(choices[i].get("value"@) == Some(value));
                    } else {
                        let nested = choices[i].array_at("options"@)->0;
                        let j = choose|j: int|
                            0 <= j < nested.len() && (#[trigger] nested[j]).text_at("value"@)
                                == Some(text);
                        assert(nested[j].get("value"@) == Some(value));
                        assert(choices[i].get("options"@) == Some(JsonModel::Array(nested)));
                    }
                    assert(offers_value(items[at], value));
                }
                if offers_value(items[at], value) {
                    let i = choose|i: int|
                        0 <= i < choices.len() && ((#[trigger] choices[i]).get("value"@) == Some(
                            value,
                        ) || (choices[i].get("options"@) matches Some(JsonModel::Array(nested))
                            && exists|j: int|
                            0 <= j < nested.len() && (#[trigger] nested[j]).get("value"@) == Some(
                                value,
                            )));
                    if choices[i].get("value"@) == Some(value) {
                        assert(choices[i].text_at("value"@) == Some(text));
                    } else {
                        let nested = choices[i].array_at("options"@)->0;
                        let j = choose|j: int|
                            0 <= j < nested.len() && (#[trigger] nested[j]).get("value"@) == Some(
                                value,
                            );
                        assert(nested[j].text_at("value"@) == Some(text));
                        assert(offers(nested, "value"@, text));
                    }
                    assert(value_offered(items[at], text));
                }
            }
        }
    } else {
        lemma_option_is_missing(items, config_id);
    }
}

/// Whether an item of the content of a tool call is good: content, a change of a
/// file, or a terminal.
pub open spec fn is_good_tool_item(item: JsonModel) -> bool {
    let kind = text_under(item, "type"@);
    &&& has_text(item, "type"@)
    &&& {
        ||| kind == "content"@ && (item.get("content"@) matches Some(block) && is_good_block(block))
        ||| kind == "diff"@ && has_text(item, "path"@) && path_problem(
            text_under(item, "path"@),
            Seq::empty(),
        ) is None
        ||| kind == "terminal"@ && has_name(item, "terminalId"@)
    }
}

/// Whether a place that a tool call touches is good.
pub open spec fn is_good_place(place: JsonModel) -> bool {
    &&& has_text(place, "path"@)
    &&& path_problem(text_under(place, "path"@), Seq::empty()) is None
    &&& match place.get("line"@) {
        None => true,
        Some(JsonModel::Null) => true,
        Some(line) => line matches JsonModel::Integer(number) && 0 <= number <= 4294967295,
    }
}

/// Whether what is told of a tool call is good.
pub open spec fn is_good_tool_call(update: JsonModel) -> bool {
    &&& has_name(update, "toolCallId"@)
    &&& may_have_text(update, "title"@)
    &&& may_have_text(update, "name"@)
    &&& may_have_text(update, "status"@)
    &&& match update.get("content"@) {
        None => true,
        Some(JsonModel::Null) => true,
        Some(JsonModel::Array(items)) => forall|i: int|
            0 <= i < items.len() ==> is_good_tool_item(#[trigger] items[i]),
        _ => false,
    }
    &&& match update.get("locations"@) {
        None => true,
        Some(JsonModel::Null) => true,
        Some(JsonModel::Array(items)) => forall|i: int|
            0 <= i < items.len() ==> is_good_place(#[trigger] items[i]),
        _ => false,
    }
}

/// A tool call is accepted exactly where all that is told of it is good.
pub proof fn law_good_tool_calls_are_accepted(update: JsonModel)
    ensures
        tool_update_problem(update) is None <==> is_good_tool_call(update),
{
    reveal_strlit("content");
    reveal_strlit("diff");
    reveal_strlit("terminal");
    assert("content"@.len() == 7);
    assert("diff"@.len() == 4);
    assert("terminal"@.len() == 8);
    if let Some(JsonModel::Array(items)) = update.get("content"@) {
        let check = |i: int| tool_content_problem(items[i]);
        lemma_all_pass(items.len(), check);
        assert forall|i: int| 0 <= i < items.len() implies ((#[trigger] check(i)) is None
            <==> is_good_tool_item(items[i])) by {
            if let Some(block) = items[i].get("content"@) {
                law_good_content_is_accepted(block, "Agent tool content"@);
            }
        }
        if forall|i: int| 0 <= i < items.len() ==> is_good_tool_item(#[trigger] items[i]) {
            assert forall|i: int| 0 <= i < items.len() implies (#[trigger] check(i)) is None by {
                assert(is_good_tool_item(items[i]));
            }
        }
        if first_of(items.len(), check) is None {
            assert forall|i: int| 0 <= i < items.len() implies is_good_tool_item(
                #[trigger] items[i],
            ) by {
                assert(check(i) is None);
            }
        }
    }
    if let Some(JsonModel::Array(items)) = update.get("locations"@) {
        let check = |i: int| location_problem(items[i]);
        lemma_all_pass(items.len(), check);
        if forall|i: int| 0 <= i < items.len() ==> is_good_place(#[trigger] items[i]) {
            assert forall|i: int| 0 <= i < items.len() implies (#[trigger] check(i)) is None by {
                assert(is_good_place(items[i]));
            }
        }
        if first_of(items.len(), check) is None {
            assert forall|i: int| 0 <= i < items.len() implies is_good_place(
                #[trigger] items[i],
            ) by {
                assert(check(i) is None);
            }
        }
    }
}

/// Whether an update is of a kind.
pub open spec fn tells(update: JsonModel, kind: Seq<char>) -> bool {
    update.get("sessionUpdate"@) == Some(JsonModel::String(kind))
}

/// An update of the conversation is accepted exactly where what it tells is good:
/// a message with good content and, if any, an identifier that is not empty; a
/// tool call; a plan with its entries; a named plan with its name; the removal of
/// one.
pub proof fn law_good_conversation_is_accepted(state: SemanticModel, update: JsonModel)
    ensures
        tells(update, "user_message_chunk"@) || tells(update, "agent_message_chunk"@) || tells(
            update,
            "agent_thought_chunk"@,
        ) ==> (update_problem(state, update) is None <==> (update.get("content"@) matches Some(
            content,
        ) && is_good_block(content)) && may_have_text(update, "messageId"@) && (has_text(
            update,
            "messageId"@,
        ) ==> has_name(update, "messageId"@))),
        tells(update, "tool_call"@) || tells(update, "tool_call_update"@) ==> (update_problem(
            state,
            update,
        ) is None <==> is_good_tool_call(update)),
        tells(update, "plan"@) ==> (update_problem(state, update) is None <==> update.get(
            "entries"@,
        ) matches Some(JsonModel::Array(_))),
        tells(update, "plan_update"@) ==> (update_problem(state, update) is None <==> (update.get(
            "plan"@,
        ) matches Some(plan) && has_name(plan, "planId"@) && (plan.get("type"@) == Some(
            JsonModel::String("items"@),
        ) ==> plan.get("entries"@) matches Some(JsonModel::Array(_))))),
        tells(update, "plan_removed"@) ==> (update_problem(state, update) is None <==> has_name(
            update,
            "planId"@,
        )),
{
    reveal_strlit("user_message_chunk");
    reveal_strlit("agent_message_chunk");
    reveal_strlit("agent_thought_chunk");
    reveal_strlit("tool_call");
    reveal_strlit("tool_call_update");
    reveal_strlit("plan");
    reveal_strlit("plan_update");
    reveal_strlit("plan_removed");
    reveal_strlit("available_commands_update");
    reveal_strlit("current_mode_update");
    reveal_strlit("config_option_update");
    reveal_strlit("session_info_update");
    reveal_strlit("usage_update");
    reveal_strlit("compaction_update");
    reveal_strlit("compaction_summary_chunk");
    assert("user_message_chunk"@.len() == 18);
    assert("agent_message_chunk"@.len() == 19);
    assert("agent_thought_chunk"@.len() == 19);
    assert("tool_call"@.len() == 9);
    assert("tool_call_update"@.len() == 16);
    assert("plan"@.len() == 4);
    assert("plan_update"@.len() == 11);
    assert("plan_removed"@.len() == 12);
    assert("available_commands_update"@.len() == 25);
    assert("current_mode_update"@.len() == 19);
    assert("config_option_update"@.len() == 20);
    assert("session_info_update"@.len() == 19);
    assert("usage_update"@.len() == 12);
    assert("compaction_update"@.len() == 17);
    assert("compaction_summary_chunk"@.len() == 24);
    assert("agent_message_chunk"@[6] == 'm');
    assert("agent_thought_chunk"@[6] == 't');
    assert("agent_message_chunk"@[0] == 'a');
    assert("current_mode_update"@[0] == 'c');
    assert("session_info_update"@[0] == 's');
    assert("agent_thought_chunk"@[0] == 'a');
    assert("plan_removed"@[0] == 'p');
    assert("usage_update"@[0] == 'u');
    law_good_tool_calls_are_accepted(update);
    if let Some(content) = update.get("content"@) {
        law_good_content_is_accepted(content, "Agent message content"@);
    }
}

/// Whether a value has a number that is not negative under a key.
pub open spec fn has_amount(value: JsonModel, key: Seq<char>) -> bool {
    value.get(key) matches Some(number) && number.is_non_negative()
}

/// A command is offered with a name of its own and a description; a mode is told
/// with its identifier; options as they are offered; the title and the time of a
/// session as texts; and a usage with amounts that are not negative and, if it
/// costs, a currency. Exactly such updates are accepted, and no unknown kind is.
pub proof fn law_good_controls_are_accepted(state: SemanticModel, update: JsonModel)
    ensures
        tells(update, "available_commands_update"@) ==> (update_problem(state, update) is None
            <==> (update.get("availableCommands"@) matches Some(JsonModel::Array(commands)) && (
        forall|i: int|
            0 <= i < commands.len() ==> has_name(#[trigger] commands[i], "name"@) && has_text(
                commands[i],
                "description"@,
            )) && all_named_apart(commands, "name"@))),
        tells(update, "current_mode_update"@) ==> (update_problem(state, update) is None
            <==> has_name(update, "currentModeId"@)),
        tells(update, "config_option_update"@) ==> (update_problem(state, update) is None
            <==> session_controls_problem(None, update.get("configOptions"@)) is None),
        tells(update, "session_info_update"@) ==> (update_problem(state, update) is None
            <==> may_have_text(update, "title"@) && may_have_text(update, "updatedAt"@)),
        tells(update, "usage_update"@) ==> (update_problem(state, update) is None <==> has_amount(
            update,
            "used"@,
        ) && has_amount(update, "size"@) && match update.get("cost"@) {
            None => true,
            Some(JsonModel::Null) => true,
            Some(cost) => has_amount(cost, "amount"@) && has_name(cost, "currency"@) && utf16_len(
                text_under(cost, "currency"@),
            ) <= 32,
        }),
        !has_text(update, "sessionUpdate"@) ==> update_problem(state, update) is Some,
        has_text(update, "sessionUpdate"@) && !tells(update, "user_message_chunk"@) && !tells(
            update,
            "agent_message_chunk"@,
        ) && !tells(update, "agent_thought_chunk"@) && !tells(update, "tool_call"@) && !tells(
            update,
            "tool_call_update"@,
        ) && !tells(update, "plan"@) && !tells(update, "plan_update"@) && !tells(
            update,
            "plan_removed"@,
        ) && !tells(update, "available_commands_update"@) && !tells(update, "current_mode_update"@)
            && !tells(update, "config_option_update"@) && !tells(update, "session_info_update"@)
            && !tells(update, "usage_update"@) && !tells(update, "compaction_update"@) && !tells(
            update,
            "compaction_summary_chunk"@,
        ) ==> update_problem(state, update) is Some,
{
    reveal_strlit("user_message_chunk");
    reveal_strlit("agent_message_chunk");
    reveal_strlit("agent_thought_chunk");
    reveal_strlit("tool_call");
    reveal_strlit("tool_call_update");
    reveal_strlit("plan");
    reveal_strlit("plan_update");
    reveal_strlit("plan_removed");
    reveal_strlit("available_commands_update");
    reveal_strlit("current_mode_update");
    reveal_strlit("config_option_update");
    reveal_strlit("session_info_update");
    reveal_strlit("usage_update");
    reveal_strlit("compaction_update");
    reveal_strlit("compaction_summary_chunk");
    assert("user_message_chunk"@.len() == 18);
    assert("agent_message_chunk"@.len() == 19);
    assert("agent_thought_chunk"@.len() == 19);
    assert("tool_call"@.len() == 9);
    assert("tool_call_update"@.len() == 16);
    assert("plan"@.len() == 4);
    assert("plan_update"@.len() == 11);
    assert("plan_removed"@.len() == 12);
    assert("available_commands_update"@.len() == 25);
    assert("current_mode_update"@.len() == 19);
    assert("config_option_update"@.len() == 20);
    assert("session_info_update"@.len() == 19);
    assert("usage_update"@.len() == 12);
    assert("compaction_update"@.len() == 17);
    assert("compaction_summary_chunk"@.len() == 24);
    assert("agent_message_chunk"@[6] == 'm');
    assert("agent_thought_chunk"@[6] == 't');
    assert("agent_message_chunk"@[0] == 'a');
    assert("current_mode_update"@[0] == 'c');
    assert("session_info_update"@[0] == 's');
    assert("agent_thought_chunk"@[0] == 'a');
    assert("plan_removed"@[0] == 'p');
    assert("usage_update"@[0] == 'u');
    if let Some(JsonModel::Array(commands)) = update.get("availableCommands"@) {
        let check = |i: int| command_problem(commands, i);
        lemma_all_pass(commands.len(), check);
        assert forall|i: int| 0 <= i < commands.len() implies ((#[trigger] check(i)) is None <==> {
            &&& has_name(commands[i], "name"@)
            &&& has_text(commands[i], "description"@)
            &&& forall|j: int|
                0 <= j < i ==> (#[trigger] commands[j]).get("name"@) != commands[i].get("name"@)
        }) by {
            lemma_seen_before(commands, i, "name"@);
        }
        if first_of(commands.len(), check) is None {
            assert forall|i: int| 0 <= i < commands.len() implies has_name(
                #[trigger] commands[i],
                "name"@,
            ) && has_text(commands[i], "description"@) by {
                assert(check(i) is None);
            }
            assert forall|i: int, j: int|
                0 <= i < j < commands.len() && has_text(
                    #[trigger] commands[i],
                    "name"@,
                ) implies commands[i].get("name"@) != (#[trigger] commands[j]).get("name"@) by {
                assert(check(j) is None);
            }
        } else if (forall|i: int|
            0 <= i < commands.len() ==> has_name(#[trigger] commands[i], "name"@) && has_text(
                commands[i],
                "description"@,
            )) && all_named_apart(commands, "name"@) {
            assert forall|i: int| 0 <= i < commands.len() implies (#[trigger] check(i)) is None by {
                assert(has_name(commands[i], "name"@));
                assert forall|j: int| 0 <= j < i implies (#[trigger] commands[j]).get("name"@)
                    != commands[i].get("name"@) by {
                    assert(has_name(commands[j], "name"@));
                }
            }
        }
    }
}

/// A compaction is told with its identifier and its status, with a summary only
/// once it is completed and with an error only once it failed, and not any more
/// after it has come to its end. A piece of its summary is taken only while it is
/// in progress.
pub proof fn law_good_compactions_are_accepted(state: SemanticModel, update: JsonModel)
    ensures
        ({
            let id = text_under(update, "compactionId"@);
            let status = text_under(update, "status"@);
            let known = state.compactions.contains_key(id);
            let ended = known && (state.compactions[id].status == "completed"@
                || state.compactions[id].status == "failed"@ || state.compactions[id].status
                == "cancelled"@);
            &&& tells(update, "compaction_update"@) ==> (update_problem(state, update) is None
                <==> has_name(update, "compactionId"@) && has_text(update, "status"@)
                && match update.get("summary"@) {
                None => true,
                Some(JsonModel::Null) => true,
                Some(JsonModel::Array(blocks)) => (blocks.len() > 0 ==> status == "completed"@)
                    && forall|i: int|
                    0 <= i < blocks.len() ==> is_good_block(#[trigger] blocks[i]),
                _ => false,
            } && match update.get("error"@) {
                None => true,
                Some(JsonModel::Null) => true,
                _ => status == "failed"@,
            } && !ended)
            &&& tells(update, "compaction_summary_chunk"@) ==> (update_problem(state, update)
                is None <==> has_name(update, "compactionId"@)
                    && (update.get("content"@) matches Some(
                content,
            ) && is_good_block(content)) && known && state.compactions[id].status
                == "in_progress"@)
        }),
{
    reveal_strlit("user_message_chunk");
    reveal_strlit("agent_message_chunk");
    reveal_strlit("agent_thought_chunk");
    reveal_strlit("tool_call");
    reveal_strlit("tool_call_update");
    reveal_strlit("plan");
    reveal_strlit("plan_update");
    reveal_strlit("plan_removed");
    reveal_strlit("available_commands_update");
    reveal_strlit("current_mode_update");
    reveal_strlit("config_option_update");
    reveal_strlit("session_info_update");
    reveal_strlit("usage_update");
    reveal_strlit("compaction_update");
    reveal_strlit("compaction_summary_chunk");
    assert("user_message_chunk"@.len() == 18);
    assert("agent_message_chunk"@.len() == 19);
    assert("agent_thought_chunk"@.len() == 19);
    assert("tool_call"@.len() == 9);
    assert("tool_call_update"@.len() == 16);
    assert("plan"@.len() == 4);
    assert("plan_update"@.len() == 11);
    assert("plan_removed"@.len() == 12);
    assert("available_commands_update"@.len() == 25);
    assert("current_mode_update"@.len() == 19);
    assert("config_option_update"@.len() == 20);
    assert("session_info_update"@.len() == 19);
    assert("usage_update"@.len() == 12);
    assert("compaction_update"@.len() == 17);
    assert("compaction_summary_chunk"@.len() == 24);
    assert("agent_message_chunk"@[6] == 'm');
    assert("agent_thought_chunk"@[6] == 't');
    assert("agent_message_chunk"@[0] == 'a');
    assert("current_mode_update"@[0] == 'c');
    assert("session_info_update"@[0] == 's');
    assert("agent_thought_chunk"@[0] == 'a');
    assert("plan_removed"@[0] == 'p');
    assert("usage_update"@[0] == 'u');
    if let Some(content) = update.get("content"@) {
        law_good_content_is_accepted(content, "Agent compaction summary content"@);
    }
    if let Some(JsonModel::Array(blocks)) = update.get("summary"@) {
        let check = |i: int| content_block_problem(blocks[i], "Agent compaction summary content"@);
        lemma_all_pass(blocks.len(), check);
        assert forall|i: int| 0 <= i < blocks.len() implies ((#[trigger] check(i)) is None
            <==> is_good_block(blocks[i])) by {
            law_good_content_is_accepted(blocks[i], "Agent compaction summary content"@);
        }
        if forall|i: int| 0 <= i < blocks.len() ==> is_good_block(#[trigger] blocks[i]) {
            assert forall|i: int| 0 <= i < blocks.len() implies (#[trigger] check(i)) is None by {
                assert(is_good_block(blocks[i]));
            }
        }
        if first_of(blocks.len(), check) is None {
            assert forall|i: int| 0 <= i < blocks.len() implies is_good_block(
                #[trigger] blocks[i],
            ) by {
                assert(check(i) is None);
            }
        }
    }
}

/// Whether a table has got an entry and is as before otherwise.
pub open spec fn notes<V>(
    before: Map<Seq<char>, V>,
    after: Map<Seq<char>, V>,
    key: Seq<char>,
    value: V,
) -> bool {
    &&& after.contains_key(key)
    &&& after[key] == value
    &&& forall|other: Seq<char>|
        other != key ==> {
            &&& #[trigger] after.contains_key(other) == before.contains_key(other)
            &&& before.contains_key(other) ==> after[other] == before[other]
        }
}

/// What is noted of an update that is accepted: the kind of a message under its
/// identifier, the status of a tool call, which stays where none is told, whether
/// a named plan stands, the current mode, and the status of a compaction. Each
/// update is counted, and changes nothing else.
#[verifier::spinoff_prover]
pub proof fn law_accepted_updates_are_noted(state: SemanticModel, update: JsonModel)
    requires
        update_problem(state, update) is None,
        state.update_count < usize::MAX,
    ensures
        ({
            let next = update_counted(state, update);
            let message = tells(update, "user_message_chunk"@) || tells(
                update,
                "agent_message_chunk"@,
            ) || tells(update, "agent_thought_chunk"@);
            let tool = tells(update, "tool_call"@) || tells(update, "tool_call_update"@);
            let compaction = tells(update, "compaction_update"@) || tells(
                update,
                "compaction_summary_chunk"@,
            );
            let plan = tells(update, "plan_update"@) || tells(update, "plan_removed"@);
            &&& next.update_count == state.update_count + 1
            &&& next.invalid_reason == state.invalid_reason
            &&& message && has_text(update, "messageId"@) ==> notes(
                state.messages,
                next.messages,
                text_under(update, "messageId"@),
                text_under(update, "sessionUpdate"@),
            )
            &&& !(message && has_text(update, "messageId"@)) ==> next.messages == state.messages
            &&& tool ==> {
                let id = text_under(update, "toolCallId"@);
                notes(
                    state.tool_calls,
                    next.tool_calls,
                    id,
                    match update.get("status"@) {
                        Some(JsonModel::String(status)) => Some(status),
                        _ => if state.tool_calls.contains_key(id) {
                            state.tool_calls[id]
                        } else {
                            None
                        },
                    },
                )
            }
            &&& !tool ==> next.tool_calls == state.tool_calls
            &&& tells(update, "plan_update"@) ==> notes(
                state.plans,
                next.plans,
                text_under(update.get("plan"@)->0, "planId"@),
                "active"@,
            )
            &&& tells(update, "plan_removed"@) ==> notes(
                state.plans,
                next.plans,
                text_under(update, "planId"@),
                "removed"@,
            )
            &&& !plan ==> next.plans == state.plans
            &&& tells(update, "current_mode_update"@) ==> next.current_mode_id == Some(
                text_under(update, "currentModeId"@),
            )
            &&& !tells(update, "current_mode_update"@) ==> next.current_mode_id
                == state.current_mode_id
            &&& tells(update, "compaction_update"@) ==> {
                let id = text_under(update, "compactionId"@);
                &&& notes(state.compactions, next.compactions, id, next.compactions[id])
                &&& next.compactions[id].status == text_under(update, "status"@)
            }
            &&& tells(update, "compaction_summary_chunk"@) ==> {
                let id = text_under(update, "compactionId"@);
                &&& notes(state.compactions, next.compactions, id, next.compactions[id])
                &&& next.compactions[id].status == state.compactions[id].status
            }
            &&& !compaction ==> next.compactions == state.compactions
        }),
{
    reveal_strlit("user_message_chunk");
    reveal_strlit("agent_message_chunk");
    reveal_strlit("agent_thought_chunk");
    reveal_strlit("tool_call");
    reveal_strlit("tool_call_update");
    reveal_strlit("plan");
    reveal_strlit("plan_update");
    reveal_strlit("plan_removed");
    reveal_strlit("available_commands_update");
    reveal_strlit("current_mode_update");
    reveal_strlit("config_option_update");
    reveal_strlit("session_info_update");
    reveal_strlit("usage_update");
    reveal_strlit("compaction_update");
    reveal_strlit("compaction_summary_chunk");
    assert("user_message_chunk"@.len() == 18);
    assert("agent_message_chunk"@.len() == 19);
    assert("agent_thought_chunk"@.len() == 19);
    assert("tool_call"@.len() == 9);
    assert("tool_call_update"@.len() == 16);
    assert("plan"@.len() == 4);
    assert("plan_update"@.len() == 11);
    assert("plan_removed"@.len() == 12);
    assert("available_commands_update"@.len() == 25);
    assert("current_mode_update"@.len() == 19);
    assert("config_option_update"@.len() == 20);
    assert("session_info_update"@.len() == 19);
    assert("usage_update"@.len() == 12);
    assert("compaction_update"@.len() == 17);
    assert("compaction_summary_chunk"@.len() == 24);
    assert("agent_message_chunk"@[6] == 'm');
    assert("agent_thought_chunk"@[6] == 't');
    assert("agent_message_chunk"@[0] == 'a');
    assert("current_mode_update"@[0] == 'c');
    assert("session_info_update"@[0] == 's');
    assert("agent_thought_chunk"@[0] == 'a');
    assert("plan_removed"@[0] == 'p');
    assert("usage_update"@[0] == 'u');
}

/// A permission is asked for a good tool call, with one option at least, each with
/// an identifier of its own and a name; exactly such requests are accepted, and
/// the options are those of the request, in order.
pub proof fn law_good_permission_requests_are_accepted(request: JsonModel)
    ensures
        permission_problem(request) is None <==> (request.get("toolCall"@) matches Some(call)
            && is_good_tool_call(call)) && (request.get("options"@) matches Some(
            JsonModel::Array(options),
        ) && options.len() > 0 && (forall|i: int|
            0 <= i < options.len() ==> has_name(#[trigger] options[i], "optionId"@) && has_name(
                options[i],
                "name"@,
            )) && all_named_apart(options, "optionId"@)),
        permission_problem(request) is None ==> {
            let options = request.get("options"@)->0.as_array()->0;
            &&& option_ids(request).len() == options.len()
            &&& forall|i: int|
                0 <= i < options.len() ==> Some(
                    JsonModel::String(#[trigger] option_ids(request)[i]),
                ) == options[i].get("optionId"@)
        },
{
    if let Some(call) = request.get("toolCall"@) {
        law_good_tool_calls_are_accepted(call);
    }
    if let Some(JsonModel::Array(options)) = request.get("options"@) {
        let check = |i: int| permission_option_problem(options, i);
        lemma_all_pass(options.len(), check);
        assert forall|i: int| 0 <= i < options.len() implies ((#[trigger] check(i)) is None <==> {
            &&& has_name(options[i], "optionId"@)
            &&& has_name(options[i], "name"@)
            &&& forall|j: int|
                0 <= j < i ==> (#[trigger] options[j]).get("optionId"@) != options[i].get(
                    "optionId"@,
                )
        }) by {
            lemma_seen_before(options, i, "optionId"@);
        }
        if first_of(options.len(), check) is None {
            assert forall|i: int| 0 <= i < options.len() implies has_name(
                #[trigger] options[i],
                "optionId"@,
            ) && has_name(options[i], "name"@) by {
                assert(check(i) is None);
            }
            assert forall|i: int, j: int|
                0 <= i < j < options.len() && has_text(
                    #[trigger] options[i],
                    "optionId"@,
                ) implies options[i].get("optionId"@) != (#[trigger] options[j]).get(
                "optionId"@,
            ) by {
                assert(check(j) is None);
            }
            assert forall|i: int| 0 <= i < options.len() implies Some(
                JsonModel::String(#[trigger] option_ids(request)[i]),
            ) == options[i].get("optionId"@) by {
                assert(has_name(options[i], "optionId"@));
            }
        } else if (forall|i: int|
            0 <= i < options.len() ==> has_name(#[trigger] options[i], "optionId"@) && has_name(
                options[i],
                "name"@,
            )) && all_named_apart(options, "optionId"@) {
            assert forall|i: int| 0 <= i < options.len() implies (#[trigger] check(i)) is None by {
                assert(has_name(options[i], "optionId"@));
                assert forall|j: int| 0 <= j < i implies (#[trigger] options[j]).get("optionId"@)
                    != options[i].get("optionId"@) by {
                    assert(has_name(options[j], "optionId"@));
                }
            }
        }
    }
}

/// The terminals that the content of a tool call refers to are those of its
/// terminal items, in order.
pub proof fn law_terminals_of_a_tool_call(items: Seq<JsonModel>, id: Seq<char>)
    ensures
        terminals_of(items, items.len()).contains(id) <==> exists|i: int|
            0 <= i < items.len() && refers_to(#[trigger] items[i], id),
{
    lemma_terminals_upto(items, items.len(), id);
}

/// Whether an item refers to a terminal.
pub open spec fn refers_to(item: JsonModel, id: Seq<char>) -> bool {
    item.get("type"@) == Some(JsonModel::String("terminal"@)) && item.get("terminalId"@) == Some(
        JsonModel::String(id),
    )
}

proof fn lemma_terminals_upto(items: Seq<JsonModel>, count: nat, id: Seq<char>)
    requires
        count <= items.len(),
    ensures
        terminals_of(items, count).contains(id) <==> exists|i: int|
            0 <= i < count && refers_to(#[trigger] items[i], id),
    decreases count,
{
    broadcast use vstd::seq_lib::group_seq_properties;

    if count > 0 {
        let before = terminals_of(items, (count - 1) as nat);
        lemma_terminals_upto(items, (count - 1) as nat, id);
        if exists|i: int| 0 <= i < count && refers_to(#[trigger] items[i], id) {
            let i = choose|i: int| 0 <= i < count && refers_to(#[trigger] items[i], id);
            if i < count - 1 {
                assert(before.contains(id));
            }
        }
        if terminals_of(items, count).contains(id) && !before.contains(id) {
            assert(refers_to(items[count - 1], id));
        }
    }
}

} // verus!
