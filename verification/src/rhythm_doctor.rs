//! Running the launch chain from its start to its end.

use vstd::prelude::*;
use crate::laws::{
    is_direct,
    lemma_action_or_outcome,
    lemma_client_launch_succeeds,
    lemma_missing_client_falls_back,
    lemma_missing_game_fails,
    lemma_no_client_without_preference,
    lemma_step_moves_forward,
};
use crate::orchestrator::{
    pending,
    run,
    seen_action,
    Action,
    ActionView,
    Fault,
    LaunchOrchestrator,
    Reply,
    ReplyView,
    Stage,
};
use crate::platform::Platform;
use crate::request::{
    exhausted,
    exhausted_reason,
    LaunchError,
    LaunchOutcome,
    LaunchOutcomeView,
    LaunchRequest,
    LaunchRequestView,
    Severity,
};

verus! {

/// One action that was carried out during a launch, and how it went.
#[derive(Debug, PartialEq, Eq)]
pub struct Attempt {
    /// What was asked for.
    pub action: Action,
    /// What came back.
    pub reply: Reply,
    /// The failure that the reply reported, if it reported one.
    pub fault: Option<Fault>,
}

/// How a launch ended, and everything that was done on the way, in order.
#[derive(Debug, PartialEq, Eq)]
pub struct LaunchReport {
    pub outcome: LaunchOutcome,
    pub attempts: Vec<Attempt>,
}

/// The replies in a list of attempts, in order.
pub open spec fn replies_of(attempts: Seq<Attempt>) -> Seq<ReplyView> {
    Seq::new(attempts.len(), |i: int| attempts[i].reply@)
}

/// Whether `attempts` is what the chain for `request` does when its
/// actions are answered by the replies recorded in it: each action is the
/// one that the chain had out after the replies before it, each fault is
/// the one that the chain read from the reply, and the chain had not ended
/// before the last of them.
pub open spec fn follows_chain(
    request: LaunchRequestView,
    platform: Platform,
    attempts: Seq<Attempt>,
) -> bool {
    forall|i: int|
        0 <= i < attempts.len() ==> {
            let before = replies_of(attempts).take(i);
            &&& pending(request, platform, before) == Some((#[trigger] attempts[i]).action@)
            &&& run(request, platform, before).fault(Some(attempts[i].reply@)) == attempts[i].fault
        }
}

/// No attempt is made once the chain has ended: before each recorded
/// attempt the chain was in a stage that is not final. So a launch that
/// starts a process, which ends the chain, is the last thing in its report.
pub proof fn lemma_no_attempt_after_end(
    request: LaunchRequestView,
    platform: Platform,
    attempts: Seq<Attempt>,
    i: int,
)
    requires
        follows_chain(request, platform, attempts),
        0 <= i < attempts.len(),
    ensures
        !run(request, platform, replies_of(attempts).take(i)).stage.is_final(),
{
    let before = replies_of(attempts).take(i);
    assert(pending(request, platform, before) == Some(attempts[i].action@));
    if before.len() > 0 {
        lemma_action_or_outcome(run(request, platform, before.drop_last()), Some(before.last()));
    }
}

/// Whether `attempts` records a whole launch for `request`: it follows the
/// chain, and the chain has ended on its replies.
pub open spec fn records_launch(
    request: LaunchRequestView,
    platform: Platform,
    attempts: Seq<Attempt>,
) -> bool {
    follows_chain(request, platform, attempts) && run(
        request,
        platform,
        replies_of(attempts),
    ).stage.is_final()
}

/// A launch that does not prefer the client never tries it: every attempt
/// in its report is part of starting the game directly.
pub proof fn lemma_report_without_preference(
    request: LaunchRequestView,
    platform: Platform,
    attempts: Seq<Attempt>,
)
    requires
        !request.prefer_client,
        follows_chain(request, platform, attempts),
    ensures
        forall|i: int|
            0 <= i < attempts.len() ==> is_direct((#[trigger] attempts[i]).action@, request),
{
    assert forall|i: int| 0 <= i < attempts.len() implies is_direct(
        (#[trigger] attempts[i]).action@,
        request,
    ) by {
        lemma_no_client_without_preference(request, platform, replies_of(attempts).take(i));
    }
}

/// The first replies of a report, written out.
proof fn lemma_first_replies(attempts: Seq<Attempt>)
    ensures
        replies_of(attempts).len() == attempts.len(),
        replies_of(attempts).take(0) == Seq::<ReplyView>::empty(),
        attempts.len() >= 1 ==> replies_of(attempts).take(1) == seq![attempts[0].reply@],
        attempts.len() >= 2 ==> replies_of(attempts).take(2) == seq![
            attempts[0].reply@,
            attempts[1].reply@,
        ],
        replies_of(attempts).take(attempts.len() as int) == replies_of(attempts),
{
    let replies = replies_of(attempts);
    assert(replies.take(0) =~= Seq::<ReplyView>::empty());
    if attempts.len() >= 1 {
        assert(replies.take(1) =~= seq![attempts[0].reply@]);
    }
    if attempts.len() >= 2 {
        assert(replies.take(2) =~= seq![attempts[0].reply@, attempts[1].reply@]);
    }
    assert(replies.take(attempts.len() as int) =~= replies);
}

/// What a report that follows the chain says of its attempt `i`.
proof fn lemma_attempt(
    request: LaunchRequestView,
    platform: Platform,
    attempts: Seq<Attempt>,
    i: int,
)
    requires
        follows_chain(request, platform, attempts),
        0 <= i < attempts.len(),
    ensures
        pending(request, platform, replies_of(attempts).take(i)) == Some(attempts[i].action@),
        run(request, platform, replies_of(attempts).take(i)).fault(Some(attempts[i].reply@))
            == attempts[i].fault,
{
    let attempt = attempts[i];
}

/// A launch in which the client is found and starts tries nothing else:
/// its report holds the search and the start, and it ends in success.
pub proof fn lemma_report_of_client_launch(
    request: LaunchRequestView,
    platform: Platform,
    attempts: Seq<Attempt>,
)
    requires
        request.prefer_client,
        follows_chain(request, platform, attempts),
        attempts.len() >= 2,
        attempts[0].reply@ is Located,
        attempts[1].reply@ == ReplyView::Completed,
    ensures
        attempts.len() == 2,
        attempts[0].action@ == ActionView::LocateClient,
        attempts[1].action@ is Spawn,
        run(request, platform, replies_of(attempts)).outcome() == Some(LaunchOutcomeView::Success),
{
    let program = attempts[0].reply@->Located_0;
    let both = seq![ReplyView::Located(program), ReplyView::Completed];
    lemma_first_replies(attempts);
    lemma_client_launch_succeeds(request, platform, program, Seq::empty());
    assert(both + Seq::<ReplyView>::empty() =~= both);
    lemma_attempt(request, platform, attempts, 0);
    lemma_attempt(request, platform, attempts, 1);
    if attempts.len() > 2 {
        lemma_no_attempt_after_end(request, platform, attempts, 2);
    }
}

/// A launch that prefers the client and does not find it goes on, without
/// failing, to leave the path for the plugin: that is the second attempt
/// in its report, and the miss is recorded as information.
pub proof fn lemma_report_of_missing_client(
    request: LaunchRequestView,
    platform: Platform,
    attempts: Seq<Attempt>,
)
    requires
        request.prefer_client,
        records_launch(request, platform, attempts),
        attempts.len() >= 1,
        !(attempts[0].reply@ is Located),
    ensures
        attempts.len() >= 2,
        attempts[0].action@ == ActionView::LocateClient,
        attempts[0].fault == Some(
            Fault { error: LaunchError::ClientNotFound, severity: Severity::Info },
        ),
        attempts[1].action@ == (ActionView::Notify { path: request.path }),
{
    let replies = replies_of(attempts);
    let reply = attempts[0].reply@;
    assert(replies.take(0) =~= Seq::empty());
    lemma_missing_client_falls_back(request, platform, reply);
    if attempts.len() == 1 {
        assert(replies =~= seq![reply]);
    } else {
        assert(replies.take(1) =~= seq![reply]);
    }
}

/// A launch whose last attempt looked for the game and did not find it has
/// failed, with the reason that the game could not be located or launched.
pub proof fn lemma_report_of_missing_game(
    request: LaunchRequestView,
    platform: Platform,
    attempts: Seq<Attempt>,
)
    requires
        follows_chain(request, platform, attempts),
        attempts.len() >= 1,
        attempts.last().action@ is LocateGame,
        !(attempts.last().reply@ is Located),
    ensures
        run(request, platform, replies_of(attempts)).outcome() == Some(
            LaunchOutcomeView::Failure { reason: exhausted_reason() },
        ),
        attempts.last().fault == Some(
            Fault { error: LaunchError::GameNotFound, severity: Severity::Error },
        ),
{
    let replies = replies_of(attempts);
    let last = attempts.len() - 1;
    let before = replies.take(last);
    assert(pending(request, platform, before) == Some(attempts[last].action@));
    assert(run(request, platform, before).stage == Stage::LocatingGame) by {
        if before.len() > 0 {
            assert(run(request, platform, before) == run(request, platform, before.drop_last()).after(
                Some(before.last()),
            ));
        }
    }
    lemma_missing_game_fails(request, platform, before, attempts[last].reply@);
    assert(before.push(attempts[last].reply@) =~= replies);
}

/// Launches Rhythm Doctor for the file at `path`: runs the launch chain
/// from its start to its end, has `perform` carry out each action that the
/// chain hands out, and feeds the chain what `perform` answers.
///
/// `perform` is called once for each attempt in the report, in order, and
/// never again once the chain has ended. The outcome is the one that the
/// chain reaches on the recorded replies.
pub fn launch_rhythm_doctor<F: Fn(&Action) -> Reply>(
    path: String,
    with_steam: bool,
    platform: Platform,
    perform: F,
) -> (report: LaunchReport)
    requires
        forall|action: Action| perform.requires((&action,)),
    ensures
        records_launch(
            LaunchRequestView { path: path@, prefer_client: with_steam },
            platform,
            report.attempts@,
        ),
        forall|i: int|
            0 <= i < report.attempts@.len() ==> perform.ensures(
                (&(#[trigger] report.attempts@[i]).action,),
                report.attempts@[i].reply,
            ),
        Some(report.outcome@) == run(
            LaunchRequestView { path: path@, prefer_client: with_steam },
            platform,
            replies_of(report.attempts@),
        ).outcome(),
        report.attempts@.len() <= 6,
{
    let ghost asked = LaunchRequestView { path: path@, prefer_client: with_steam };
    let request = LaunchRequest::new(path, with_steam);
    let mut chain = LaunchOrchestrator::new(request, platform);
    let mut attempts: Vec<Attempt> = Vec::new();
    let first = chain.step(None);
    let mut next: Option<Action> = first.action;
    proof {
        assert(replies_of(attempts@) =~= Seq::empty());
    }
    loop
        invariant
            forall|action: Action| perform.requires((&action,)),
            chain@ == run(asked, platform, replies_of(attempts@)),
            seen_action(next) == pending(asked, platform, replies_of(attempts@)),
            next is None <==> chain@.stage.is_final(),
            chain@.stage != Stage::Start,
            chain@.stage.is_final() || chain@.stage.position() > attempts@.len(),
            follows_chain(asked, platform, attempts@),
            forall|i: int|
                0 <= i < attempts@.len() ==> perform.ensures(
                    (&(#[trigger] attempts@[i]).action,),
                    attempts@[i].reply,
                ),
            attempts@.len() <= 6,
        ensures
            chain@.stage.is_final(),
        decreases 7 - chain@.stage.position(),
    {
        match next {
            None => {
                break ;
            },
            Some(action) => {
                let ghost before = chain@;
                let ghost so_far = replies_of(attempts@);
                let ghost done = attempts@;
                let reply = perform(&action);
                let taken = chain.step(Some(reply.clone()));
                proof {
                    lemma_step_moves_forward(before, Some(reply@));
                    lemma_action_or_outcome(before, Some(reply@));
                }
                attempts.push(Attempt { action, reply, fault: taken.fault });
                next = taken.action;
                proof {
                    let now = replies_of(attempts@);
                    assert(now =~= so_far.push(reply@));
                    assert(now.drop_last() =~= so_far);
                    assert(now.take(done.len() as int) =~= so_far);
                    assert forall|i: int| 0 <= i < attempts@.len() implies {
                        let earlier = now.take(i);
                        &&& pending(asked, platform, earlier) == Some(
                            (#[trigger] attempts@[i]).action@,
                        )
                        &&& run(asked, platform, earlier).fault(Some(attempts@[i].reply@))
                            == attempts@[i].fault
                    } by {
                        if i < done.len() {
                            assert(now.take(i) =~= so_far.take(i));
                            assert(attempts@[i] == done[i]);
                        }
                    }
                }
            },
        }
    }
    let outcome = match chain.outcome() {
        Some(outcome) => outcome,
        None => exhausted(),
    };
    LaunchReport { outcome, attempts }
}

} // verus!
