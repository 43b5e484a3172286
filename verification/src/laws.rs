//! What holds of every run of the launch chain.

use vstd::prelude::*;
use crate::command::{client_arguments, game_arguments, APP_ID};
use crate::orchestrator::{
    completed,
    located,
    pending,
    run,
    ActionView,
    ChainView,
    Fault,
    ReplyView,
    Stage,
    Strategy,
};
use crate::platform::Platform;
use crate::request::{
    exhausted_reason,
    LaunchError,
    LaunchOutcomeView,
    LaunchRequestView,
    Severity,
};

verus! {

/// Whether `action` is part of starting the game directly for `request`:
/// looking up its install directory, or starting its executable with the
/// path as the only argument.
pub open spec fn is_direct(action: ActionView, request: LaunchRequestView) -> bool {
    match action {
        ActionView::LocateGame { app_id } => app_id == APP_ID,
        ActionView::Spawn { args, .. } => args == game_arguments(request.path),
        _ => false,
    }
}

/// A step never goes back. From a stage that is not final it leads to a
/// later one, so no stage is entered twice and nothing is tried again; in
/// a final stage it changes nothing, asks for nothing and reports nothing.
pub proof fn lemma_step_moves_forward(chain: ChainView, reply: Option<ReplyView>)
    ensures
        !chain.stage.is_final() ==> chain.stage.position() < chain.after(reply).stage.position(),
        chain.stage.is_final() ==> chain.after(reply) == chain && chain.issues(reply) is None
            && chain.fault(reply) is None,
        chain.after(reply).request == chain.request,
        chain.after(reply).platform == chain.platform,
{
}

/// An action is out exactly while the chain has not ended, and the launch
/// has an outcome exactly once it has.
pub proof fn lemma_action_or_outcome(chain: ChainView, reply: Option<ReplyView>)
    ensures
        chain.issues(reply) is None <==> chain.after(reply).stage.is_final(),
        chain.after(reply).outcome() is Some <==> chain.after(reply).stage.is_final(),
        chain.after(reply).stage != Stage::Start,
{
}

/// A step keeps the chain coherent: a request that does not prefer the
/// client is never led into a stage that goes through the client.
pub proof fn lemma_step_keeps_coherent(chain: ChainView, reply: Option<ReplyView>)
    requires
        chain.coherent(),
    ensures
        chain.after(reply).coherent(),
{
}

/// The moment a process is started the chain ends in success: a completed
/// launch of the client, of the `steam://` address or of the game leads to
/// `Succeeded` and to no further action. With
/// [`lemma_step_moves_forward`] this means that no run starts more than
/// one process.
pub proof fn lemma_started_process_ends_chain(chain: ChainView, reply: Option<ReplyView>)
    requires
        chain.stage == Stage::LaunchingClient || chain.stage == Stage::OpeningUri || chain.stage
            == Stage::LaunchingGame,
        completed(reply),
    ensures
        chain.after(reply).stage == Stage::Succeeded,
        chain.after(reply).outcome() == Some(LaunchOutcomeView::Success),
        chain.issues(reply) is None,
        chain.fault(reply) is None,
{
}

/// The position of the chain after `replies`: at least one stage further
/// for each reply, until it is final.
pub proof fn lemma_run_position(
    request: LaunchRequestView,
    platform: Platform,
    replies: Seq<ReplyView>,
)
    ensures
        run(request, platform, replies).request == request,
        run(request, platform, replies).platform == platform,
        run(request, platform, replies).stage.is_final() || run(
            request,
            platform,
            replies,
        ).stage.position() > replies.len(),
        run(request, platform, replies).stage != Stage::Start,
    decreases replies.len(),
{
    if replies.len() > 0 {
        lemma_run_position(request, platform, replies.drop_last());
        lemma_step_moves_forward(
            run(request, platform, replies.drop_last()),
            Some(replies.last()),
        );
    }
}

/// Every run ends: after six replies at the latest the chain is final and
/// the launch has its one outcome.
pub proof fn lemma_run_ends(request: LaunchRequestView, platform: Platform, replies: Seq<ReplyView>)
    requires
        replies.len() >= 6,
    ensures
        run(request, platform, replies).stage.is_final(),
        run(request, platform, replies).outcome() is Some,
        pending(request, platform, replies) is None,
{
    lemma_run_position(request, platform, replies);
    lemma_action_or_outcome(run(request, platform, replies.drop_last()), Some(replies.last()));
}

/// Once a run has ended, further replies change nothing.
pub proof fn lemma_final_is_kept(
    request: LaunchRequestView,
    platform: Platform,
    replies: Seq<ReplyView>,
    more: Seq<ReplyView>,
)
    requires
        run(request, platform, replies).stage.is_final(),
    ensures
        run(request, platform, replies + more) == run(request, platform, replies),
        more.len() > 0 ==> pending(request, platform, replies + more) is None,
    decreases more.len(),
{
    if more.len() == 0 {
        assert(replies + more =~= replies);
    } else {
        let all = replies + more;
        assert(all.drop_last() =~= replies + more.drop_last());
        assert(all.last() == more.last());
        lemma_final_is_kept(request, platform, replies, more.drop_last());
    }
}

/// Without a preference for the client the chain goes straight to the
/// direct launch and never enters a stage that goes through the client:
/// whatever comes back, every action it hands out is part of starting the
/// game directly.
pub proof fn lemma_no_client_without_preference(
    request: LaunchRequestView,
    platform: Platform,
    replies: Seq<ReplyView>,
)
    requires
        !request.prefer_client,
    ensures
        run(request, platform, Seq::empty()).stage == Stage::LocatingGame,
        !run(request, platform, replies).stage.uses_client(),
        run(request, platform, replies).stage.strategy() == Some(Strategy::DirectLaunch) || run(
            request,
            platform,
            replies,
        ).stage.is_final(),
        pending(request, platform, replies) matches Some(action) ==> is_direct(action, request),
    decreases replies.len(),
{
    if replies.len() > 0 {
        lemma_no_client_without_preference(request, platform, replies.drop_last());
        lemma_run_position(request, platform, replies.drop_last());
    }
}

/// When the client is found and starts, the launch succeeds and nothing
/// else is tried: the only actions are the search for the client and its
/// start, with the game's id and the path as arguments, and whatever comes
/// back afterwards no further action is handed out.
pub proof fn lemma_client_launch_succeeds(
    request: LaunchRequestView,
    platform: Platform,
    program: Seq<char>,
    more: Seq<ReplyView>,
)
    requires
        request.prefer_client,
    ensures
        pending(request, platform, Seq::empty()) == Some(ActionView::LocateClient),
        pending(request, platform, seq![ReplyView::Located(program)]) == Some(
            ActionView::Spawn {
                program,
                args: client_arguments(platform, APP_ID, request.path),
            },
        ),
        pending(request, platform, seq![ReplyView::Located(program), ReplyView::Completed] + more)
            is None,
        run(
            request,
            platform,
            seq![ReplyView::Located(program), ReplyView::Completed] + more,
        ).outcome() == Some(LaunchOutcomeView::Success),
{
    let first = seq![ReplyView::Located(program)];
    let both = seq![ReplyView::Located(program), ReplyView::Completed];
    assert(first.drop_last() =~= Seq::empty());
    assert(both.drop_last() =~= first);
    assert(run(request, platform, first).stage == Stage::LaunchingClient);
    assert(run(request, platform, both).stage == Stage::Succeeded);
    lemma_final_is_kept(request, platform, both, more);
    if more.len() == 0 {
        assert(both + more =~= both);
    }
}

/// When the client is not found, its launch is passed over without an
/// error and the chain turns to the `steam://` address: the next action
/// leaves the path for the plugin, the miss is reported as information
/// only, and the launch has not failed.
pub proof fn lemma_missing_client_falls_back(
    request: LaunchRequestView,
    platform: Platform,
    reply: ReplyView,
)
    requires
        request.prefer_client,
        located(Some(reply)) is None,
    ensures
        run(request, platform, seq![reply]).stage == Stage::Notifying,
        run(request, platform, seq![reply]).stage.strategy() == Some(Strategy::ProtocolFallback),
        pending(request, platform, seq![reply]) == Some(
            ActionView::Notify { path: request.path },
        ),
        run(request, platform, Seq::empty()).fault(Some(reply)) == Some(
            Fault { error: LaunchError::ClientNotFound, severity: Severity::Info },
        ),
        run(request, platform, seq![reply]).outcome() is None,
{
    assert(seq![reply].drop_last() =~= Seq::empty());
}

/// When the install directory of the game is not found, the launch fails,
/// with the reason that the game could not be located or launched. This is
/// so however the chain came to look for the game: straight from the
/// start, or after both ways through the client had failed.
pub proof fn lemma_missing_game_fails(
    request: LaunchRequestView,
    platform: Platform,
    replies: Seq<ReplyView>,
    reply: ReplyView,
)
    requires
        run(request, platform, replies).stage == Stage::LocatingGame,
        located(Some(reply)) is None,
    ensures
        run(request, platform, replies.push(reply)).stage == Stage::Failed,
        run(request, platform, replies.push(reply)).outcome() == Some(
            LaunchOutcomeView::Failure { reason: exhausted_reason() },
        ),
        pending(request, platform, replies.push(reply)) is None,
        run(request, platform, replies).fault(Some(reply)) == Some(
            Fault { error: LaunchError::GameNotFound, severity: Severity::Error },
        ),
{
    assert(replies.push(reply).drop_last() =~= replies);
}

/// When the client is not found and the path cannot be left for the
/// plugin, the `steam://` address is not opened: the chain turns to the
/// direct launch. If the game is not found either, the launch fails.
pub proof fn lemma_all_strategies_fail(
    request: LaunchRequestView,
    platform: Platform,
    client: ReplyView,
    notified: ReplyView,
    game: ReplyView,
)
    requires
        request.prefer_client,
        located(Some(client)) is None,
        !completed(Some(notified)),
        located(Some(game)) is None,
    ensures
        pending(request, platform, seq![client, notified]) == Some(
            ActionView::LocateGame { app_id: APP_ID },
        ),
        run(request, platform, seq![client, notified, game]).outcome() == Some(
            LaunchOutcomeView::Failure { reason: exhausted_reason() },
        ),
{
    let one = seq![client];
    let two = seq![client, notified];
    let three = seq![client, notified, game];
    assert(one.drop_last() =~= Seq::empty());
    assert(two.drop_last() =~= one);
    assert(three.drop_last() =~= two);
    assert(run(request, platform, Seq::empty()).stage == Stage::LocatingClient);
    assert(run(request, platform, one).stage == Stage::Notifying);
    assert(run(request, platform, two).stage == Stage::LocatingGame);
}

} // verus!
