//! The stream vocabulary of the vendor's own command line: `system/<subtype>`,
//! `assistant`, `user`, `result` and `rate_limit_event`.
use crate::json;
use crate::json::{
    Json, array_member_of, member_of, number_member_of, object_member_of, str_member_of,
    string_member_of, u64_member_of, write_json,
};
use crate::text;
use crate::text::{chars_of, contains_text, join_parts, joined, str_equal};
use crate::transcripts::record;
use crate::transcripts::record::{
    BodyView, LineBody, LineParse, ModelUsageView, ParseView, RulesView, StreamState, StreamView,
    ToolCallView, TranscriptModelUsage, TranscriptRole, TranscriptRules, TranscriptToolCall,
    TranscriptUsage, UsageView, accept, new_call, refuse, refuse_with, set_arguments, set_result,
};
use vstd::prelude::*;
use vstd::string::*;

verus! {

/// What one content block of an assistant message adds.
pub struct BlockView {
    pub text: Option<Seq<char>>,
    pub call: Option<ToolCallView>,
}

/// What the content blocks of a message add up to.
pub struct BlocksView {
    pub texts: Seq<Seq<char>>,
    pub calls: Seq<ToolCallView>,
}

/// What a content block of an assistant message adds, or why it is refused.
pub open spec fn assistant_block(block: Json, rules: RulesView) -> Result<BlockView, Seq<char>> {
    if !(block is Object) {
        Err("ASSISTANT_CONTENT_BLOCK_NOT_OBJECT"@)
    } else {
        match json::str_member(block, "type"@) {
            None => Err("ASSISTANT_CONTENT_BLOCK_MISSING_TYPE"@),
            Some(kind) => if kind == "text"@ {
                Ok(BlockView { text: json::str_member(block, "text"@), call: None })
            } else if kind == "thinking"@ {
                Ok(BlockView { text: json::str_member(block, "thinking"@), call: None })
            } else if kind == "redacted_thinking"@ {
                Ok(BlockView { text: None, call: None })
            } else if kind == "fallback"@ {
                Ok(BlockView { text: Some(json::json_writing(block)), call: None })
            } else if kind == "tool_use"@ || kind == "server_tool_use"@ {
                match json::str_member(block, "name"@) {
                    None => Err("TOOL_USE_MISSING_NAME"@),
                    Some(name) => Ok(
                        BlockView {
                            text: None,
                            call: Some(
                                record::with_arguments(
                                    record::named_call(name, json::str_member(block, "id"@)),
                                    record::bounded_or_empty(
                                        json::member(block, "input"@),
                                        rules.max_tool_args_chars,
                                    ),
                                ),
                            ),
                        },
                    ),
                }
            } else if kind == "web_search_tool_result"@ {
                Ok(
                    BlockView {
                        text: None,
                        call: Some(
                            record::with_result(
                                record::named_call(
                                    "web_search_tool_result"@,
                                    json::str_member(block, "tool_use_id"@),
                                ),
                                record::bounded_or_empty(
                                    json::member(block, "content"@),
                                    rules.max_tool_result_chars,
                                ),
                            ),
                        ),
                    },
                )
            } else {
                Err("UNKNOWN_ASSISTANT_CONTENT_BLOCK: "@ + kind)
            },
        }
    }
}

/// The blocks so far with one more.
pub open spec fn blocks_push(blocks: BlocksView, block: BlockView) -> BlocksView {
    BlocksView {
        texts: match block.text {
            Some(text) => blocks.texts.push(text),
            None => blocks.texts,
        },
        calls: match block.call {
            Some(call) => blocks.calls.push(call),
            None => blocks.calls,
        },
    }
}

/// What the content blocks of an assistant message add up to; the first block
/// that is refused refuses them all.
pub open spec fn assistant_blocks(items: Seq<Json>, rules: RulesView) -> Result<
    BlocksView,
    Seq<char>,
>
    decreases items.len(),
{
    if items.len() == 0 {
        Ok(BlocksView { texts: Seq::<Seq<char>>::empty(), calls: Seq::<ToolCallView>::empty() })
    } else {
        match assistant_blocks(items.drop_last(), rules) {
            Err(refusal) => Err(refusal),
            Ok(blocks) => match assistant_block(items.last(), rules) {
                Err(refusal) => Err(refusal),
                Ok(block) => Ok(blocks_push(blocks, block)),
            },
        }
    }
}

/// A content block that was read.
pub struct ContentBlock {
    pub text: Option<String>,
    pub call: Option<TranscriptToolCall>,
}

/// The view of an optional call.
pub open spec fn opt_call(call: Option<TranscriptToolCall>) -> Option<ToolCallView> {
    match call {
        Some(inner) => Some(inner@),
        None => None,
    }
}

impl View for ContentBlock {
    type V = BlockView;

    open spec fn view(&self) -> BlockView {
        BlockView { text: text::opt_text(self.text), call: opt_call(self.call) }
    }
}

/// The view of a read block.
pub open spec fn block_outcome(outcome: Result<ContentBlock, String>) -> Result<
    BlockView,
    Seq<char>,
> {
    match outcome {
        Ok(block) => Ok(block@),
        Err(refusal) => Err(refusal@),
    }
}

/// Reads one content block of an assistant message.
pub fn read_assistant_block(block: &Json, rules: &TranscriptRules) -> (outcome: Result<
    ContentBlock,
    String,
>)
    ensures
        block_outcome(outcome) == assistant_block(*block, rules@),
{
    match block {
        Json::Object(_) => {},
        _ => {
            return Err("ASSISTANT_CONTENT_BLOCK_NOT_OBJECT".to_owned());
        },
    }
    let kind = match str_member_of(block, "type") {
        Some(kind) => kind,
        None => {
            return Err("ASSISTANT_CONTENT_BLOCK_MISSING_TYPE".to_owned());
        },
    };
    if str_equal(kind, "text") {
        Ok(ContentBlock { text: string_member_of(block, "text"), call: None })
    } else if str_equal(kind, "thinking") {
        Ok(ContentBlock { text: string_member_of(block, "thinking"), call: None })
    } else if str_equal(kind, "redacted_thinking") {
        Ok(ContentBlock { text: None, call: None })
    } else if str_equal(kind, "fallback") {
        Ok(ContentBlock { text: Some(write_json(block)), call: None })
    } else if str_equal(kind, "tool_use") || str_equal(kind, "server_tool_use") {
        match string_member_of(block, "name") {
            None => Err("TOOL_USE_MISSING_NAME".to_owned()),
            Some(name) => {
                let mut call = new_call(name, string_member_of(block, "id"));
                set_arguments(&mut call, member_of(block, "input"), rules.max_tool_args_chars);
                Ok(ContentBlock { text: None, call: Some(call) })
            },
        }
    } else if str_equal(kind, "web_search_tool_result") {
        let mut call = new_call(
            "web_search_tool_result".to_owned(),
            string_member_of(block, "tool_use_id"),
        );
        set_result(&mut call, member_of(block, "content"), rules.max_tool_result_chars);
        Ok(ContentBlock { text: None, call: Some(call) })
    } else {
        Err(joined("UNKNOWN_ASSISTANT_CONTENT_BLOCK: ", kind))
    }
}

/// Content blocks that were read.
pub struct ContentBlocks {
    pub texts: Vec<String>,
    pub calls: Vec<TranscriptToolCall>,
}

impl View for ContentBlocks {
    type V = BlocksView;

    open spec fn view(&self) -> BlocksView {
        BlocksView { texts: text::texts(self.texts@), calls: record::call_views(self.calls@) }
    }
}

impl ContentBlocks {
    /// No blocks.
    pub fn none() -> (blocks: Self)
        ensures
            blocks@ == (BlocksView {
                texts: Seq::<Seq<char>>::empty(),
                calls: Seq::<ToolCallView>::empty(),
            }),
    {
        let blocks = ContentBlocks { texts: Vec::new(), calls: Vec::new() };
        assert(blocks@.texts =~= Seq::<Seq<char>>::empty());
        assert(blocks@.calls =~= Seq::<ToolCallView>::empty());
        blocks
    }

    /// Adds one block.
    pub fn push(&mut self, block: ContentBlock)
        ensures
            final(self)@ == blocks_push(old(self)@, block@),
    {
        let before: Ghost<BlocksView> = Ghost(self@);
        let view: Ghost<BlockView> = Ghost(block@);
        if let Some(text) = block.text {
            self.texts.push(text);
            assert(text::texts(self.texts@) =~= before@.texts.push(text@));
        }
        if let Some(call) = block.call {
            self.calls.push(call);
            assert(record::call_views(self.calls@) =~= before@.calls.push(call@));
        }
    }
}

/// The view of read blocks.
pub open spec fn blocks_outcome(outcome: Result<ContentBlocks, String>) -> Result<
    BlocksView,
    Seq<char>,
> {
    match outcome {
        Ok(blocks) => Ok(blocks@),
        Err(refusal) => Err(refusal@),
    }
}

proof fn lemma_assistant_blocks_prefix(items: Seq<Json>, upto: int, rules: RulesView)
    requires
        0 <= upto <= items.len(),
        assistant_blocks(items.subrange(0, upto), rules) is Err,
    ensures
        assistant_blocks(items, rules) == assistant_blocks(items.subrange(0, upto), rules),
    decreases items.len(),
{
    if upto == items.len() {
        assert(items.subrange(0, upto) =~= items);
    } else {
        assert(items.drop_last().subrange(0, upto) =~= items.subrange(0, upto));
        lemma_assistant_blocks_prefix(items.drop_last(), upto, rules);
    }
}

fn read_assistant_blocks(items: &Vec<Json>, rules: &TranscriptRules) -> (outcome: Result<
    ContentBlocks,
    String,
>)
    ensures
        blocks_outcome(outcome) == assistant_blocks(items@, rules@),
{
    let mut blocks = ContentBlocks::none();
    let mut index: usize = 0;
    while index < items.len()
        invariant
            index <= items@.len(),
            assistant_blocks(items@.subrange(0, index as int), rules@) == Ok::<
                BlocksView,
                Seq<char>,
            >(blocks@),
        decreases items@.len() - index,
    {
        proof {
            let prefix = items@.subrange(0, index as int + 1);
            assert(prefix.drop_last() =~= items@.subrange(0, index as int));
            assert(prefix.last() == items@[index as int]);
            if assistant_blocks(prefix, rules@) is Err {
                lemma_assistant_blocks_prefix(items@, index as int + 1, rules@);
            }
        }
        match read_assistant_block(&items[index], rules) {
            Ok(block) => {
                blocks.push(block);
            },
            Err(refusal) => {
                return Err(refusal);
            },
        }
        index = index + 1;
    }
    assert(items@.subrange(0, items@.len() as int) =~= items@);
    Ok(blocks)
}

/// The tokens that a usage object accounts for. Cache writes are told
/// apart by how long they live.
pub open spec fn claude_usage_of(usage: Json) -> UsageView {
    let tier = |name: Seq<char>|
        match json::member(usage, "cache_creation"@) {
            Some(tiers) => json::u64_member(tiers, name),
            None => None,
        };
    UsageView {
        input_tokens: json::u64_member(usage, "input_tokens"@),
        output_tokens: json::u64_member(usage, "output_tokens"@),
        cache_read_input_tokens: json::u64_member(usage, "cache_read_input_tokens"@),
        cache_creation_input_tokens: json::u64_member(usage, "cache_creation_input_tokens"@),
        cache_creation_5m_input_tokens: tier("ephemeral_5m_input_tokens"@),
        cache_creation_1h_input_tokens: tier("ephemeral_1h_input_tokens"@),
        ..record::no_usage()
    }
}

/// The tokens that a usage object accounts for.
pub fn claude_usage(usage: &Json) -> (accounted: TranscriptUsage)
    ensures
        accounted@ == claude_usage_of(*usage),
{
    let mut accounted = TranscriptUsage::none();
    accounted.input_tokens = u64_member_of(usage, "input_tokens");
    accounted.output_tokens = u64_member_of(usage, "output_tokens");
    accounted.cache_read_input_tokens = u64_member_of(usage, "cache_read_input_tokens");
    accounted.cache_creation_input_tokens = u64_member_of(usage, "cache_creation_input_tokens");
    if let Some(tiers) = member_of(usage, "cache_creation") {
        accounted.cache_creation_5m_input_tokens = u64_member_of(
            tiers,
            "ephemeral_5m_input_tokens",
        );
        accounted.cache_creation_1h_input_tokens = u64_member_of(
            tiers,
            "ephemeral_1h_input_tokens",
        );
    }
    accounted
}

/// Whether `left` comes before `right`, compared by code points.
pub open spec fn text_less(left: Seq<char>, right: Seq<char>) -> bool
    decreases right.len(),
{
    if right.len() == 0 {
        false
    } else if left.len() == 0 {
        true
    } else if left[0] == right[0] {
        text_less(left.skip(1), right.skip(1))
    } else {
        left[0] < right[0]
    }
}

/// Whether `left` comes before `right`, compared by code points.
pub fn is_text_less(left: &str, right: &str) -> (less: bool)
    ensures
        less == text_less(left@, right@),
{
    let a = chars_of(left);
    let b = chars_of(right);
    let mut index: usize = 0;
    assert(left@.skip(0) =~= left@);
    assert(right@.skip(0) =~= right@);
    while index < a.len() && index < b.len()
        invariant
            a@ == left@,
            b@ == right@,
            index <= a@.len(),
            index <= b@.len(),
            text_less(left@, right@)
                == text_less(left@.skip(index as int), right@.skip(index as int)),
        decreases a@.len() - index,
    {
        proof {
            assert(left@.skip(index as int).skip(1) =~= left@.skip(index as int + 1));
            assert(right@.skip(index as int).skip(1) =~= right@.skip(index as int + 1));
        }
        if a[index] != b[index] {
            return a[index] < b[index];
        }
        index = index + 1;
    }
    index < b.len()
}

/// The usage entry of one model.
pub open spec fn model_usage_entry(model: Seq<char>, entry: Json) -> ModelUsageView {
    let count = |name: Seq<char>|
        match json::u64_member(entry, name) {
            Some(number) => number,
            None => 0,
        };
    ModelUsageView {
        model,
        input_tokens: count("inputTokens"@),
        output_tokens: count("outputTokens"@),
        cache_read_input_tokens: count("cacheReadInputTokens"@),
        cache_creation_input_tokens: count("cacheCreationInputTokens"@),
        cost_usd: json::number_of(json::member(entry, "costUSD"@)),
    }
}

/// Puts an entry behind those whose model does not come after its own.
pub open spec fn insert_by_model(
    entries: Seq<ModelUsageView>,
    entry: ModelUsageView,
) -> Seq<ModelUsageView>
    decreases entries.len(),
{
    if entries.len() > 0 && text_less(entry.model, entries.last().model) {
        insert_by_model(entries.drop_last(), entry).push(entries.last())
    } else {
        entries.push(entry)
    }
}

/// The usage entries of all models in the order of their models.
pub open spec fn model_usage_list(entries: Seq<(String, Json)>) -> Seq<ModelUsageView>
    decreases entries.len(),
{
    if entries.len() == 0 {
        Seq::<ModelUsageView>::empty()
    } else {
        insert_by_model(
            model_usage_list(entries.drop_last()),
            model_usage_entry(entries.last().0@, entries.last().1),
        )
    }
}

/// What the usage by model says, or why it is refused.
pub open spec fn model_usage_of(value: Json) -> Result<Seq<ModelUsageView>, Seq<char>> {
    match value {
        Json::Object(entries) => Ok(model_usage_list(entries@)),
        _ => Err("RESULT_MODEL_USAGE_NOT_OBJECT"@),
    }
}

/// The view of a list of usages.
pub open spec fn usages_outcome(outcome: Result<Vec<TranscriptModelUsage>, String>) -> Result<
    Seq<ModelUsageView>,
    Seq<char>,
> {
    match outcome {
        Ok(usages) => Ok(record::usage_views(usages@)),
        Err(refusal) => Err(refusal@),
    }
}

fn count_of(entry: &Json, name: &str) -> (count: u64)
    ensures
        count == (match json::u64_member(*entry, name@) {
            Some(number) => number,
            None => 0,
        }),
{
    match u64_member_of(entry, name) {
        Some(number) => number,
        None => 0,
    }
}

proof fn lemma_insert_at(entries: Seq<ModelUsageView>, entry: ModelUsageView, at: int)
    requires
        0 <= at <= entries.len(),
        forall|i: int| at <= i < entries.len()
            ==> text_less(entry.model, (#[trigger] entries[i]).model),
        at > 0 ==> !text_less(entry.model, entries[at - 1].model),
    ensures
        insert_by_model(entries, entry) == entries.insert(at, entry),
    decreases entries.len(),
{
    if at < entries.len() {
        lemma_insert_at(entries.drop_last(), entry, at);
        assert(entries.drop_last().insert(at, entry).push(entries.last()) =~= entries.insert(
            at,
            entry,
        ));
    } else {
        assert(entries.push(entry) =~= entries.insert(at, entry));
    }
}

fn insert_usage(usages: &mut Vec<TranscriptModelUsage>, usage: TranscriptModelUsage)
    requires
        old(usages)@.len() < usize::MAX,
    ensures
        record::usage_views(final(usages)@)
            == insert_by_model(record::usage_views(old(usages)@), usage@),
        final(usages)@.len() == old(usages)@.len() + 1,
{
    let mut at: usize = usages.len();
    let ghost before = record::usage_views(usages@);
    while at > 0 && is_text_less(usage.model.as_str(), usages[at - 1].model.as_str())
        invariant
            at <= usages@.len(),
            before == record::usage_views(usages@),
            forall|i: int|
                at <= i < before.len() ==> text_less(usage@.model, (#[trigger] before[i]).model),
        decreases at,
    {
        at = at - 1;
    }
    proof {
        lemma_insert_at(before, usage@, at as int);
    }
    let ghost view = usage@;
    usages.insert(at, usage);
    assert(record::usage_views(usages@) =~= before.insert(at as int, view));
}

/// Reads the usage by model, in the order of the models.
pub fn claude_model_usage(value: &Json) -> (outcome: Result<Vec<TranscriptModelUsage>, String>)
    ensures
        usages_outcome(outcome) == model_usage_of(*value),
{
    let entries = match value {
        Json::Object(entries) => entries,
        _ => {
            return Err("RESULT_MODEL_USAGE_NOT_OBJECT".to_owned());
        },
    };
    let mut usages: Vec<TranscriptModelUsage> = Vec::new();
    let mut index: usize = 0;
    assert(record::usage_views(usages@) =~= Seq::<ModelUsageView>::empty());
    while index < entries.len()
        invariant
            index <= entries@.len(),
            usages@.len() == index,
            record::usage_views(usages@) == model_usage_list(entries@.subrange(0, index as int)),
        decreases entries@.len() - index,
    {
        let entry: &(String, Json) = &entries[index];
        proof {
            let prefix = entries@.subrange(0, index as int + 1);
            assert(prefix.drop_last() =~= entries@.subrange(0, index as int));
            assert(prefix.last() == entries@[index as int]);
        }
        let usage = TranscriptModelUsage {
            model: entry.0.clone(),
            input_tokens: count_of(&entry.1, "inputTokens"),
            output_tokens: count_of(&entry.1, "outputTokens"),
            cache_read_input_tokens: count_of(&entry.1, "cacheReadInputTokens"),
            cache_creation_input_tokens: count_of(&entry.1, "cacheCreationInputTokens"),
            cost_usd: number_member_of(&entry.1, "costUSD"),
        };
        assert(usage@ == model_usage_entry(entry.0@, entry.1));
        insert_usage(&mut usages, usage);
        index = index + 1;
    }
    assert(entries@.subrange(0, entries@.len() as int) =~= entries@);
    Ok(usages)
}

/// The stream after an assistant message: its model, and one more turn where no
/// message before had its id.
pub open spec fn after_assistant(stream: StreamView, message: Json) -> StreamView {
    let named = match json::str_member(message, "model"@) {
        Some(model) => StreamView { model: Some(model), ..stream },
        None => stream,
    };
    match json::str_member(message, "id"@) {
        Some(id) => if named.seen_message_ids.contains(id) {
            StreamView { last_assistant_message_id: Some(id), ..named }
        } else {
            StreamView {
                turn_index: (named.turn_index + 1) as u64,
                last_assistant_message_id: Some(id),
                seen_message_ids: named.seen_message_ids.push(id),
                ..named
            }
        },
        None => named,
    }
}

/// Notes the model of an assistant message, and the turn that a new one starts.
fn note_assistant(stream: &mut StreamState, message: &Json)
    requires
        old(stream)@.turn_index < u64::MAX,
    ensures
        final(stream)@ == after_assistant(old(stream)@, *message),
{
    if let Some(model) = string_member_of(message, "model") {
        stream.model = Some(model);
    }
    if let Some(id) = string_member_of(message, "id") {
        if !contains_text(&stream.seen_message_ids, id.as_str()) {
            let ghost seen = text::texts(stream.seen_message_ids@);
            stream.turn_index = stream.turn_index + 1;
            stream.seen_message_ids.push(id.clone());
            assert(text::texts(stream.seen_message_ids@) =~= seen.push(id@));
        }
        stream.last_assistant_message_id = Some(id);
    }
}

/// The ids that a stream starts with: those that were kept, or the last one where
/// only that was kept.
pub fn restored_message_ids(kept: Vec<String>, last: &Option<String>) -> (ids: Vec<String>)
    ensures
        text::texts(ids@) == (if kept@.len() == 0 && last is Some {
            seq![last->Some_0@]
        } else {
            text::texts(kept@)
        }),
{
    if kept.len() > 0 {
        return kept;
    }
    match last {
        None => kept,
        Some(id) => {
            let ids: Vec<String> = vec![id.clone()];
            assert(text::texts(ids@) =~= seq![id@]);
            ids
        },
    }
}

/// The id of the assistant message that a line holds, if it holds one.
pub open spec fn assistant_message_id(object: Json) -> Option<Seq<char>> {
    if json::str_member(object, "type"@) == Some("assistant"@) {
        match json::object_member(object, "message"@) {
            Some(message) => json::str_member(message, "id"@),
            None => None,
        }
    } else {
        None
    }
}

/// The distinct ids of the assistant messages that lines hold.
pub open spec fn distinct_message_ids(objects: Seq<Json>) -> Set<Seq<char>> {
    Set::new(
        |id: Seq<char>|
            exists|i: int|
                0 <= i < objects.len() && #[trigger] assistant_message_id(objects[i]) == Some(id),
    )
}

/// The stream after lines, one after the other.
pub open spec fn claude_stream_after(stream: StreamView, objects: Seq<Json>, rules: RulesView) -> StreamView
    decreases objects.len(),
{
    if objects.len() == 0 {
        stream
    } else {
        claude_parse(
            objects.last(),
            claude_stream_after(stream, objects.drop_last(), rules),
            rules,
        ).0
    }
}

/// Whether a stream has counted exactly these ids, each once.
pub open spec fn has_counted(stream: StreamView, ids: Set<Seq<char>>) -> bool {
    &&& stream.seen_message_ids.no_duplicates()
    &&& stream.seen_message_ids.to_set() == ids
    &&& stream.turn_index == stream.seen_message_ids.len()
}

/// One more message: its id is counted where it is new.
proof fn lemma_counting_an_id(stream: StreamView, message: Json, ids: Set<Seq<char>>)
    requires
        has_counted(stream, ids),
        stream.turn_index < u64::MAX,
    ensures
        has_counted(
            after_assistant(stream, message),
            match json::str_member(message, "id"@) {
                Some(id) => ids.insert(id),
                None => ids,
            },
        ),
{
    if let Some(id) = json::str_member(message, "id"@) {
        let seen = stream.seen_message_ids;
        if seen.contains(id) {
            assert(ids.contains(id));
            assert(ids.insert(id) =~= ids);
        } else {
            let longer = seen.push(id);
            assert(longer.no_duplicates());
            assert forall|other: Seq<char>| longer.contains(other) <==> ids.insert(id).contains(
                other,
            ) by {
                if seen.contains(other) {
                    let at = choose|at: int| 0 <= at < seen.len() && seen[at] == other;
                    assert(longer[at] == other);
                    assert(seen.to_set().contains(other));
                }
                if other == id {
                    assert(longer[seen.len() as int] == id);
                }
                if ids.contains(other) {
                    assert(seen.to_set().contains(other));
                }
            }
            assert(longer.to_set() =~= ids.insert(id));
        }
    }
}

/// The ids of one line more.
proof fn lemma_distinct_ids_step(objects: Seq<Json>)
    requires
        objects.len() > 0,
    ensures
        distinct_message_ids(objects) == (match assistant_message_id(objects.last()) {
            Some(id) => distinct_message_ids(objects.drop_last()).insert(id),
            None => distinct_message_ids(objects.drop_last()),
        }),
{
    let shorter = objects.drop_last();
    let grown = match assistant_message_id(objects.last()) {
        Some(id) => distinct_message_ids(shorter).insert(id),
        None => distinct_message_ids(shorter),
    };
    assert forall|id: Seq<char>| distinct_message_ids(objects).contains(id) <==> grown.contains(
        id,
    ) by {
        if distinct_message_ids(objects).contains(id) {
            let i = choose|i: int|
                0 <= i < objects.len() && #[trigger] assistant_message_id(objects[i]) == Some(id);
            if i < shorter.len() {
                assert(shorter[i] == objects[i]);
                assert(assistant_message_id(shorter[i]) == Some(id));
            }
        }
        if distinct_message_ids(shorter).contains(id) {
            let i = choose|i: int|
                0 <= i < shorter.len() && #[trigger] assistant_message_id(shorter[i]) == Some(id);
            assert(assistant_message_id(objects[i]) == Some(id));
        }
        if assistant_message_id(objects.last()) == Some(id) {
            assert(assistant_message_id(objects[objects.len() - 1]) == Some(id));
        }
    }
    assert(distinct_message_ids(objects) =~= grown);
}

proof fn lemma_claude_stream_counts(stream: StreamView, objects: Seq<Json>, rules: RulesView)
    requires
        stream.turn_index == 0,
        stream.seen_message_ids.len() == 0,
        objects.len() < u64::MAX,
    ensures
        has_counted(claude_stream_after(stream, objects, rules), distinct_message_ids(objects)),
        claude_stream_after(stream, objects, rules).turn_index <= objects.len(),
    decreases objects.len(),
{
    if objects.len() == 0 {
        assert(distinct_message_ids(objects) =~= Set::empty());
        assert(stream.seen_message_ids.to_set() =~= Set::empty());
    } else {
        let before = claude_stream_after(stream, objects.drop_last(), rules);
        lemma_claude_stream_counts(stream, objects.drop_last(), rules);
        lemma_distinct_ids_step(objects);
        reveal_strlit("assistant");
        reveal_strlit("system");
        reveal_strlit("rate_limit_event");
        assert("assistant"@.len() == 9 && "system"@.len() == 6 && "rate_limit_event"@.len() == 16);
        let object = objects.last();
        if json::str_member(object, "type"@) == Some("assistant"@) {
            if let Some(message) = json::object_member(object, "message"@) {
                lemma_counting_an_id(before, message, distinct_message_ids(objects.drop_last()));
            }
        }
    }
}

/// The turns of a stream are its distinct assistant messages: after any lines the
/// counter is the number of different ids that they hold, in whatever order they
/// come and however often they come back.
pub proof fn law_turns_are_distinct_messages(
    stream: StreamView,
    objects: Seq<Json>,
    rules: RulesView,
)
    requires
        stream.turn_index == 0,
        stream.seen_message_ids.len() == 0,
        objects.len() < u64::MAX,
    ensures
        distinct_message_ids(objects).finite(),
        claude_stream_after(stream, objects, rules).turn_index == distinct_message_ids(
            objects,
        ).len(),
{
    lemma_claude_stream_counts(stream, objects, rules);
    let seen = claude_stream_after(stream, objects, rules).seen_message_ids;
    seen.unique_seq_to_set();
    vstd::seq_lib::seq_to_set_is_finite(seen);
}

/// The body of an assistant message, or why it has none.
pub open spec fn assistant_body(message: Json, rules: RulesView) -> Result<BodyView, Seq<char>> {
    match json::array_member(message, "content"@) {
        None => Err("ASSISTANT_MISSING_CONTENT_ARRAY"@),
        Some(items) => match assistant_blocks(items, rules) {
            Err(refusal) => Err(refusal),
            Ok(blocks) => Ok(
                BodyView {
                    tool_calls: blocks.calls,
                    usage: match json::member(message, "usage"@) {
                        Some(usage) => Some(claude_usage_of(usage)),
                        None => None,
                    },
                    ..record::with_opt_content(
                        record::plain_body(TranscriptRole::Assistant, "assistant"@),
                        joined_texts(blocks.texts),
                        rules,
                    )
                },
            ),
        },
    }
}

/// The texts line by line, where there are any.
pub open spec fn joined_texts(texts: Seq<Seq<char>>) -> Option<Seq<char>> {
    if texts.len() == 0 {
        None
    } else {
        Some(text::join_spec(texts, "\n"@))
    }
}

/// Joins the texts line by line, where there are any.
pub fn join_lines(parts: &Vec<String>) -> (text: Option<String>)
    ensures
        text::opt_text(text) == joined_texts(text::texts(parts@)),
{
    if parts.len() == 0 {
        None
    } else {
        Some(join_parts(parts, "\n"))
    }
}

fn read_assistant(message: &Json, rules: &TranscriptRules) -> (outcome: Result<LineBody, String>)
    ensures
        record::outcome_view(outcome) == assistant_body(*message, rules@),
{
    let items = match array_member_of(message, "content") {
        Some(items) => items,
        None => {
            return Err("ASSISTANT_MISSING_CONTENT_ARRAY".to_owned());
        },
    };
    let blocks = match read_assistant_blocks(items, rules) {
        Ok(blocks) => blocks,
        Err(refusal) => {
            return Err(refusal);
        },
    };
    let mut body = LineBody::plain(TranscriptRole::Assistant, "assistant".to_owned());
    let joined_text = join_lines(&blocks.texts);
    match &joined_text {
        Some(text) => {
            body.set_content(text.as_str(), rules);
        },
        None => {},
    }
    body.tool_calls = blocks.calls;
    body.usage = match member_of(message, "usage") {
        Some(usage) => Some(claude_usage(usage)),
        None => None,
    };
    Ok(body)
}

/// What a content block of a user message adds, or why it is refused.
pub open spec fn user_block(block: Json, rules: RulesView) -> Result<ToolCallView, Seq<char>> {
    if !(block is Object) {
        Err("USER_CONTENT_BLOCK_NOT_OBJECT"@)
    } else {
        match json::str_member(block, "type"@) {
            None => Err("USER_CONTENT_BLOCK_MISSING_TYPE"@),
            Some(kind) => if kind != "tool_result"@ {
                Err("UNKNOWN_USER_CONTENT_BLOCK: "@ + kind)
            } else {
                Ok(
                    record::with_result(
                        record::named_call("tool_result"@, json::str_member(block, "tool_use_id"@)),
                        record::bounded_or_empty(json::member(block, "content"@), rules.max_tool_result_chars),
                    ),
                )
            },
        }
    }
}

/// The tool results of a user message; the first block that is refused refuses
/// them all.
pub open spec fn user_blocks(items: Seq<Json>, rules: RulesView) -> Result<
    Seq<ToolCallView>,
    Seq<char>,
>
    decreases items.len(),
{
    if items.len() == 0 {
        Ok(Seq::<ToolCallView>::empty())
    } else {
        match user_blocks(items.drop_last(), rules) {
            Err(refusal) => Err(refusal),
            Ok(calls) => match user_block(items.last(), rules) {
                Err(refusal) => Err(refusal),
                Ok(call) => Ok(calls.push(call)),
            },
        }
    }
}

proof fn lemma_user_blocks_prefix(items: Seq<Json>, upto: int, rules: RulesView)
    requires
        0 <= upto <= items.len(),
        user_blocks(items.subrange(0, upto), rules) is Err,
    ensures
        user_blocks(items, rules) == user_blocks(items.subrange(0, upto), rules),
    decreases items.len(),
{
    if upto == items.len() {
        assert(items.subrange(0, upto) =~= items);
    } else {
        assert(items.drop_last().subrange(0, upto) =~= items.subrange(0, upto));
        lemma_user_blocks_prefix(items.drop_last(), upto, rules);
    }
}

/// The view of a read call.
pub open spec fn call_outcome(outcome: Result<TranscriptToolCall, String>) -> Result<
    ToolCallView,
    Seq<char>,
> {
    match outcome {
        Ok(call) => Ok(call@),
        Err(refusal) => Err(refusal@),
    }
}

/// Reads one content block of a user message.
pub fn read_user_block(block: &Json, rules: &TranscriptRules) -> (outcome: Result<
    TranscriptToolCall,
    String,
>)
    ensures
        call_outcome(outcome) == user_block(*block, rules@),
{
    match block {
        Json::Object(_) => {},
        _ => {
            return Err("USER_CONTENT_BLOCK_NOT_OBJECT".to_owned());
        },
    }
    let kind = match str_member_of(block, "type") {
        Some(kind) => kind,
        None => {
            return Err("USER_CONTENT_BLOCK_MISSING_TYPE".to_owned());
        },
    };
    if !str_equal(kind, "tool_result") {
        return Err(joined("UNKNOWN_USER_CONTENT_BLOCK: ", kind));
    }
    let mut call = new_call("tool_result".to_owned(), string_member_of(block, "tool_use_id"));
    set_result(&mut call, member_of(block, "content"), rules.max_tool_result_chars);
    Ok(call)
}

/// The body of a user message, or why it has none.
pub open spec fn user_body(message: Json, rules: RulesView) -> Result<BodyView, Seq<char>> {
    let plain = record::plain_body(TranscriptRole::Tool, "user/tool_result"@);
    match json::member(message, "content"@) {
        None => Err("USER_MISSING_CONTENT"@),
        Some(Json::Str(text)) => Ok(record::with_content(plain, text@, rules)),
        Some(Json::Array(items)) => match user_blocks(items@, rules) {
            Err(refusal) => Err(refusal),
            Ok(calls) => Ok(BodyView { tool_calls: calls, ..plain }),
        },
        Some(_) => Err("USER_CONTENT_NOT_STRING_OR_ARRAY"@),
    }
}

fn read_user(message: &Json, rules: &TranscriptRules) -> (outcome: Result<LineBody, String>)
    ensures
        record::outcome_view(outcome) == user_body(*message, rules@),
{
    let mut body = LineBody::plain(TranscriptRole::Tool, "user/tool_result".to_owned());
    let plain: Ghost<BodyView> = Ghost(body@);
    match member_of(message, "content") {
        None => Err("USER_MISSING_CONTENT".to_owned()),
        Some(Json::Str(text)) => {
            body.set_content(text.as_str(), rules);
            Ok(body)
        },
        Some(Json::Array(items)) => {
            let mut index: usize = 0;
            while index < items.len()
                invariant
                    index <= items@.len(),
                    plain@ == record::plain_body(TranscriptRole::Tool, "user/tool_result"@),
                    json::member(*message, "content"@) == Some(Json::Array(*items)),
                    body@ == (BodyView { tool_calls: body@.tool_calls, ..plain@ }),
                    user_blocks(items@.subrange(0, index as int), rules@) == Ok::<
                        Seq<ToolCallView>,
                        Seq<char>,
                    >(body@.tool_calls),
                decreases items@.len() - index,
            {
                proof {
                    let prefix = items@.subrange(0, index as int + 1);
                    assert(prefix.drop_last() =~= items@.subrange(0, index as int));
                    assert(prefix.last() == items@[index as int]);
                    if user_blocks(prefix, rules@) is Err {
                        lemma_user_blocks_prefix(items@, index as int + 1, rules@);
                    }
                }
                match read_user_block(&items[index], rules) {
                    Ok(call) => {
                        body.push_call(call);
                    },
                    Err(refusal) => {
                        return Err(refusal);
                    },
                }
                index = index + 1;
            }
            assert(items@.subrange(0, items@.len() as int) =~= items@);
            Ok(body)
        },
        Some(_) => Err("USER_CONTENT_NOT_STRING_OR_ARRAY".to_owned()),
    }
}

/// The subtype of a result, `unknown` where it names none.
pub open spec fn result_subtype(object: Json) -> Seq<char> {
    match json::str_member(object, "subtype"@) {
        Some(subtype) => subtype,
        None => "unknown"@,
    }
}

/// What a result accounts for, before the usage by model.
pub open spec fn result_usage(object: Json) -> UsageView {
    let usage = match json::member(object, "usage"@) {
        Some(usage) => claude_usage_of(usage),
        None => record::no_usage(),
    };
    UsageView { total_cost_usd: json::number_of(json::member(object, "total_cost_usd"@)), ..usage }
}

/// What a result accounts for, or why it is refused.
pub open spec fn full_result_usage(object: Json) -> Result<UsageView, Seq<char>> {
    match json::member(object, "modelUsage"@) {
        None => Ok(result_usage(object)),
        Some(value) => match model_usage_of(value) {
            Err(refusal) => Err(refusal),
            Ok(usages) => Ok(UsageView { model_usage: usages, ..result_usage(object) }),
        },
    }
}

/// The body of a result, or why it has none.
pub open spec fn result_body(object: Json, rules: RulesView) -> Result<BodyView, Seq<char>> {
    let kind = "result/"@ + result_subtype(object);
    match full_result_usage(object) {
        Err(refusal) => Err(refusal),
        Ok(usage) => Ok(
            BodyView {
                usage: if usage == record::no_usage() {
                    None
                } else {
                    Some(usage)
                },
                source_error: if json::member(object, "is_error"@) == Some(Json::Bool(true)) {
                    Some(kind)
                } else {
                    None
                },
                ..record::with_opt_content(
                    record::plain_body(TranscriptRole::Result, kind),
                    json::str_member(object, "result"@),
                    rules,
                )
            },
        ),
    }
}

fn read_result(object: &Json, rules: &TranscriptRules) -> (outcome: Result<LineBody, String>)
    ensures
        record::outcome_view(outcome) == result_body(*object, rules@),
{
    let subtype = match str_member_of(object, "subtype") {
        Some(subtype) => subtype,
        None => "unknown",
    };
    let kind = joined("result/", subtype);
    let mut body = LineBody::plain(TranscriptRole::Result, kind.clone());
    body.set_opt_content(str_member_of(object, "result"), rules);
    let mut usage = match member_of(object, "usage") {
        Some(usage) => claude_usage(usage),
        None => TranscriptUsage::none(),
    };
    usage.total_cost_usd = number_member_of(object, "total_cost_usd");
    if let Some(value) = member_of(object, "modelUsage") {
        match claude_model_usage(value) {
            Ok(usages) => {
                usage.model_usage = usages;
            },
            Err(refusal) => {
                return Err(refusal);
            },
        }
    }
    if !usage.is_empty() {
        body.usage = Some(usage);
    }
    if let Some(Json::Bool(true)) = member_of(object, "is_error") {
        body.source_error = Some(kind);
    }
    Ok(body)
}

/// The stream after the line that opens it.
pub open spec fn after_init(stream: StreamView, object: Json) -> StreamView {
    StreamView {
        conversation_id: match json::str_member(object, "session_id"@) {
            Some(id) => Some(id),
            None => stream.conversation_id,
        },
        model: match json::str_member(object, "model"@) {
            Some(model) => Some(model),
            None => stream.model,
        },
        ..stream
    }
}

/// What the vocabulary says of a line, and the stream after it. An assistant
/// message counts for the stream even where its content is refused.
pub open spec fn claude_parse(object: Json, stream: StreamView, rules: RulesView) -> (
    StreamView,
    ParseView,
) {
    match json::str_member(object, "type"@) {
        None => (stream, record::refused("MISSING_TYPE: line has no string `type` field"@)),
        Some(kind) => if kind == "system"@ {
            match json::str_member(object, "subtype"@) {
                None => (stream, record::refused("SYSTEM_MISSING_SUBTYPE"@)),
                Some(subtype) => (
                    if subtype == "init"@ {
                        after_init(stream, object)
                    } else {
                        stream
                    },
                    record::parse_of(Ok(record::plain_body(TranscriptRole::System, "system/"@ + subtype))),
                ),
            }
        } else if kind == "rate_limit_event"@ {
            (stream, record::parse_of(Ok(record::plain_body(TranscriptRole::System, "rate_limit_event"@))))
        } else if kind == "assistant"@ {
            match json::object_member(object, "message"@) {
                None => (stream, record::refused("ASSISTANT_MISSING_MESSAGE"@)),
                Some(message) => (
                    after_assistant(stream, message),
                    ParseView {
                        model: json::str_member(message, "model"@),
                        turn_index: None,
                        outcome: assistant_body(message, rules),
                    },
                ),
            }
        } else if kind == "user"@ {
            match json::object_member(object, "message"@) {
                None => (stream, record::refused("USER_MISSING_MESSAGE"@)),
                Some(message) => (stream, record::parse_of(user_body(message, rules))),
            }
        } else if kind == "result"@ {
            (stream, record::parse_of(result_body(object, rules)))
        } else {
            (stream, record::refused("UNKNOWN_EVENT_TYPE: "@ + kind))
        },
    }
}

/// Reads one line of the stream.
pub fn parse_claude_object(object: &Json, stream: &mut StreamState, rules: &TranscriptRules) -> (parse:
    LineParse)
    requires
        old(stream)@.turn_index < u64::MAX,
    ensures
        (final(stream)@, parse@) == claude_parse(*object, old(stream)@, rules@),
{
    let kind = match str_member_of(object, "type") {
        Some(kind) => kind,
        None => {
            return refuse("MISSING_TYPE: line has no string `type` field");
        },
    };
    if str_equal(kind, "system") {
        let subtype = match str_member_of(object, "subtype") {
            Some(subtype) => subtype,
            None => {
                return refuse("SYSTEM_MISSING_SUBTYPE");
            },
        };
        if str_equal(subtype, "init") {
            if let Some(id) = string_member_of(object, "session_id") {
                stream.conversation_id = Some(id);
            }
            if let Some(model) = string_member_of(object, "model") {
                stream.model = Some(model);
            }
        }
        accept(LineBody::plain(TranscriptRole::System, joined("system/", subtype)))
    } else if str_equal(kind, "rate_limit_event") {
        accept(LineBody::plain(TranscriptRole::System, "rate_limit_event".to_owned()))
    } else if str_equal(kind, "assistant") {
        let message = match object_member_of(object, "message") {
            Some(message) => message,
            None => {
                return refuse("ASSISTANT_MISSING_MESSAGE");
            },
        };
        note_assistant(stream, message);
        LineParse {
            model: string_member_of(message, "model"),
            turn_index: None,
            outcome: read_assistant(message, rules),
        }
    } else if str_equal(kind, "user") {
        let message = match object_member_of(object, "message") {
            Some(message) => message,
            None => {
                return refuse("USER_MISSING_MESSAGE");
            },
        };
        LineParse { model: None, turn_index: None, outcome: read_user(message, rules) }
    } else if str_equal(kind, "result") {
        LineParse { model: None, turn_index: None, outcome: read_result(object, rules) }
    } else {
        refuse_with("UNKNOWN_EVENT_TYPE: ", kind)
    }
}

/// The usage by model lists each model's entry once, in the order of the models.
pub proof fn law_model_usage_is_sorted(entries: Seq<(String, Json)>)
    ensures
        model_usage_list(entries).len() == entries.len(),
        forall|i: int, j: int|
            0 <= i < j < entries.len() ==> !text_less(
                (#[trigger] model_usage_list(entries)[j]).model,
                (#[trigger] model_usage_list(entries)[i]).model,
            ),
        forall|k: int|
            0 <= k < entries.len() ==> model_usage_list(entries).contains(
                model_usage_entry((#[trigger] entries[k]).0@, entries[k].1),
            ),
    decreases entries.len(),
{
    if entries.len() > 0 {
        let rest = model_usage_list(entries.drop_last());
        let entry = model_usage_entry(entries.last().0@, entries.last().1);
        law_model_usage_is_sorted(entries.drop_last());
        lemma_insert_keeps_order(rest, entry);
        assert forall|k: int| 0 <= k < entries.len() implies model_usage_list(entries).contains(
            model_usage_entry((#[trigger] entries[k]).0@, entries[k].1),
        ) by {
            if k < entries.len() - 1 {
                assert(entries.drop_last()[k] == entries[k]);
                assert(rest.contains(model_usage_entry(entries[k].0@, entries[k].1)));
            }
        }
    }
}

proof fn lemma_text_less_transitive(a: Seq<char>, b: Seq<char>, c: Seq<char>)
    requires
        !text_less(b, a),
        !text_less(c, b),
    ensures
        !text_less(c, a),
    decreases a.len(),
{
    if a.len() > 0 && c.len() > 0 && b.len() > 0 && a[0] == b[0] && b[0] == c[0] {
        lemma_text_less_transitive(a.skip(1), b.skip(1), c.skip(1));
    } else if a.len() > 0 && b.len() > 0 && c.len() > 0 {
        assert(a[0] <= b[0]);
        assert(b[0] <= c[0]);
    }
}

proof fn lemma_text_less_asymmetric(a: Seq<char>, b: Seq<char>)
    requires
        text_less(a, b),
    ensures
        !text_less(b, a),
    decreases b.len(),
{
    if a.len() > 0 && b.len() > 0 && a[0] == b[0] {
        lemma_text_less_asymmetric(a.skip(1), b.skip(1));
    }
}

proof fn lemma_insert_keeps_order(entries: Seq<ModelUsageView>, entry: ModelUsageView)
    requires
        forall|i: int, j: int|
            0 <= i < j < entries.len() ==> !text_less(
                (#[trigger] entries[j]).model,
                (#[trigger] entries[i]).model,
            ),
    ensures
        insert_by_model(entries, entry).len() == entries.len() + 1,
        insert_by_model(entries, entry).contains(entry),
        forall|x: ModelUsageView|
            entries.contains(x) ==> #[trigger] insert_by_model(entries, entry).contains(x),
        forall|x: ModelUsageView| #[trigger]
            insert_by_model(entries, entry).contains(x) ==> entries.contains(x) || x == entry,
        forall|i: int, j: int|
            0 <= i < j < entries.len() + 1 ==> !text_less(
                (#[trigger] insert_by_model(entries, entry)[j]).model,
                (#[trigger] insert_by_model(entries, entry)[i]).model,
            ),
    decreases entries.len(),
{
    let out = insert_by_model(entries, entry);
    if entries.len() > 0 && text_less(entry.model, entries.last().model) {
        let shorter = entries.drop_last();
        let inner = insert_by_model(shorter, entry);
        lemma_insert_keeps_order(shorter, entry);
        lemma_text_less_asymmetric(entry.model, entries.last().model);
        assert(inner[inner.len() - 1] == out[inner.len() - 1]);
        let at = choose|k: int| 0 <= k < inner.len() && inner[k] == entry;
        assert(out[at] == entry);
        assert forall|x: ModelUsageView| entries.contains(x) implies #[trigger] out.contains(x) by {
            let k = choose|k: int| 0 <= k < entries.len() && entries[k] == x;
            if k < shorter.len() {
                assert(shorter[k] == x);
                assert(shorter.contains(x));
                assert(inner.contains(x));
                let m = choose|m: int| 0 <= m < inner.len() && inner[m] == x;
                assert(out[m] == x);
            } else {
                assert(out[inner.len() as int] == x);
            }
        }
        assert forall|x: ModelUsageView| #[trigger] out.contains(x) implies entries.contains(x) || x
            == entry by {
            let k = choose|k: int| 0 <= k < out.len() && out[k] == x;
            if k < inner.len() {
                assert(inner[k] == x);
                assert(inner.contains(x));
                if shorter.contains(x) {
                    let m = choose|m: int| 0 <= m < shorter.len() && shorter[m] == x;
                    assert(entries[m] == x);
                }
            } else {
                assert(entries[entries.len() - 1] == x);
            }
        }
        assert forall|i: int, j: int| 0 <= i < j < entries.len() + 1 implies !text_less(
            (#[trigger] out[j]).model,
            (#[trigger] out[i]).model,
        ) by {
            assert(out[i] == inner[i]);
            if j < inner.len() {
                assert(out[j] == inner[j]);
            } else {
                assert(inner.contains(inner[i]));
                if shorter.contains(inner[i]) {
                    let m = choose|m: int| 0 <= m < shorter.len() && shorter[m] == inner[i];
                    assert(entries[m] == inner[i]);
                    assert(!text_less(entries[entries.len() - 1].model, entries[m].model));
                }
            }
        }
    } else {
        assert(out[entries.len() as int] == entry);
        assert forall|x: ModelUsageView| entries.contains(x) implies #[trigger] out.contains(x) by {
            let k = choose|k: int| 0 <= k < entries.len() && entries[k] == x;
            assert(out[k] == x);
        }
        assert forall|i: int, j: int| 0 <= i < j < entries.len() + 1 implies !text_less(
            (#[trigger] out[j]).model,
            (#[trigger] out[i]).model,
        ) by {
            if j == entries.len() && i < entries.len() - 1 {
                lemma_text_less_transitive(
                    entries[i].model,
                    entries[entries.len() - 1].model,
                    entry.model,
                );
            }
        }
    }
}

} // verus!
