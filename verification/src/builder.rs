//! Context-window assembly: folding prior conversation entries into a single
//! prompt buffer under a character budget.

use crate::config::RoadmapConfig;
use crate::message::{ChatMessage, Role, user_message};
use vstd::prelude::*;
use vstd::string::*;

verus! {

/// The prompt buffer that assembly produces. Starting from `buffer`, the
/// entries of `context` are walked in order, consuming at most `remaining`
/// of them; the walk stops at the first entry that would push the total
/// character length over `limit`, and each accepted entry is prepended to
/// the front of the buffer. Earlier-accepted context therefore sits closest
/// to the original message, and the last-accepted entry at the very front.
pub open spec fn context_window(
    buffer: Seq<char>,
    context: Seq<Seq<char>>,
    remaining: nat,
    limit: nat,
) -> Seq<char>
    decreases context.len(),
{
    if context.len() == 0 || remaining == 0 {
        buffer
    } else if buffer.len() + context[0].len() > limit {
        buffer
    } else {
        context_window(
            context[0] + buffer,
            context.drop_first(),
            (remaining - 1) as nat,
            limit,
        )
    }
}

/// Assembles the message sequence for one upstream request: the given system
/// instruction first, then a single user message whose content is `message`
/// with the accepted context entries prepended, as `context_window` states.
pub fn build_message(
    config: &RoadmapConfig,
    message: String,
    context: Vec<String>,
    system_message: ChatMessage,
) -> (r: Vec<ChatMessage>)
    ensures
        r@.len() == 2,
        r@[0] == system_message,
        r@[1].role == Role::User,
        r@[1].content@ == context_window(
            message@,
            context.deep_view(),
            config.context_length as nat,
            config.message_limit_chars as nat,
        ),
{
    let ghost ctx = context.deep_view();
    let ghost target = context_window(
        message@,
        ctx,
        config.context_length as nat,
        config.message_limit_chars as nat,
    );
    let limit = config.message_limit_chars;
    let mut running: usize = message.as_str().unicode_len();
    let mut buffer = message;
    let n = if context.len() < config.context_length {
        context.len()
    } else {
        config.context_length
    };
    let mut i: usize = 0;
    proof {
        assert(ctx.skip(0) =~= ctx);
    }
    while i < n
        invariant_except_break
            ctx == context.deep_view(),
            ctx.len() == context@.len(),
            limit == config.message_limit_chars,
            n <= ctx.len(),
            n <= config.context_length,
            n == ctx.len() || n == config.context_length,
            i <= n,
            running as nat == buffer@.len(),
            target == context_window(
                buffer@,
                ctx.skip(i as int),
                (config.context_length - i) as nat,
                limit as nat,
            ),
        ensures
            buffer@ == target,
        decreases n - i,
    {
        let entry_len = context[i].as_str().unicode_len();
        if running > limit || entry_len > limit - running {
            break;
        }
        proof {
            assert(ctx.skip(i as int).drop_first() =~= ctx.skip(i as int + 1));
        }
        running = running + entry_len;
        let prefix = String::from_str(context[i].as_str());
        buffer = prefix.concat(buffer.as_str());
        i = i + 1;
    }
    let mut messages: Vec<ChatMessage> = Vec::new();
    messages.push(system_message);
    messages.push(user_message(buffer));
    messages
}

/// With a context budget of zero entries, assembly leaves the buffer equal
/// to the original message, whatever the context list holds.
pub proof fn lemma_zero_context_length(
    message: Seq<char>,
    context: Seq<Seq<char>>,
    limit: nat,
)
    ensures
        context_window(message, context, 0, limit) == message,
{
}

/// When the context list is no longer than the entry budget, the budget
/// never cuts the walk short: every entry is considered, and assembly gives
/// the same buffer for every budget at least as large as the list.
pub proof fn lemma_short_context_all_considered(
    buffer: Seq<char>,
    context: Seq<Seq<char>>,
    remaining: nat,
    limit: nat,
)
    requires
        context.len() <= remaining,
    ensures
        context_window(buffer, context, remaining, limit) == context_window(
            buffer,
            context,
            context.len(),
            limit,
        ),
    decreases context.len(),
{
    if context.len() == 0 {
    } else if buffer.len() + context[0].len() > limit {
    } else {
        lemma_short_context_all_considered(
            context[0] + buffer,
            context.drop_first(),
            (remaining - 1) as nat,
            limit,
        );
    }
}

/// If the first context entry alone already overflows what the budget
/// leaves beyond the message, the walk stops at once and the buffer carries
/// no context text at all.
pub proof fn lemma_first_entry_overflow(
    message: Seq<char>,
    context: Seq<Seq<char>>,
    remaining: nat,
    limit: nat,
)
    requires
        context.len() > 0,
        message.len() + context[0].len() > limit,
    ensures
        context_window(message, context, remaining, limit) == message,
{
}

} // verus!
