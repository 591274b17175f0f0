//! The decisions of the background run that one message event starts:
//! fetch the snapshot, read the persisted records, diff against them,
//! replace them by the snapshot's keys, and post what was fresh.
//!
//! The caller performs each action and hands back its outcome. Any failure
//! ends the run; nothing is retried.
use crate::blocks::{block_models, bukkens_to_blocks, notification_blocks, Block};
use crate::freshness::{filter_fresh, fresh_of, persisted_keys, snapshot_key_seq, snapshot_keys};
use crate::listing::{Bukken, BukkenKey};
use crate::webhook::{AppState, Event};
use vstd::prelude::*;

verus! {

/// The body of a message post.
pub struct PostMessageRequest {
    pub blocks: Vec<Block>,
    pub channel: String,
}

/// The next piece of outside work of a run.
pub enum Action {
    /// Ask the listing source for its snapshot, sending these form fields.
    FetchListings { form: Vec<(String, String)> },
    /// Read all persisted records.
    ReadPersisted,
    /// Replace all persisted records by these.
    ReplacePersisted { records: Vec<BukkenKey> },
    /// Post this message, authenticated by the bot's token.
    PostMessage { token: String, request: PostMessageRequest },
    /// Nothing more: the run is over.
    Finish,
}

/// What came of the last action.
pub enum Outcome {
    Listings(Vec<Bukken>),
    Persisted(Vec<BukkenKey>),
    Replaced,
    Posted,
    Failed,
}

/// Where a run stands.
pub enum Stage {
    AwaitingListings,
    AwaitingPersisted { snapshot: Vec<Bukken> },
    AwaitingReplace { message: Option<PostMessageRequest> },
    AwaitingPost,
    Done,
}

/// One background run for one message event.
pub struct Workflow {
    pub stage: Stage,
    pub channel: String,
    pub token: String,
}

/// The form fields of a snapshot request for `tdfk`, as from a desktop client.
pub open spec fn listing_form(tdfk: Seq<char>) -> Seq<(Seq<char>, Seq<char>)> {
    seq![("tdfk"@, tdfk), ("is_sp"@, "false"@)]
}

/// The models of form fields.
pub open spec fn form_model(form: Seq<(String, String)>) -> Seq<(Seq<char>, Seq<char>)> {
    form.map_values(|f: (String, String)| (f.0@, f.1@))
}

impl Workflow {
    /// Starts the run for `ev`. An event of the bot itself starts nothing,
    /// so that the bot's own posts never trigger it again.
    pub fn start(ev: &Event, state: &AppState) -> (r: (Workflow, Action))
        ensures
            r.0.channel@ == ev.channel@,
            r.0.token@ == state.bot_user_oauth_token@,
            ev.user@ == state.bot_user@ ==> r.0.stage is Done && r.1 is Finish,
            ev.user@ != state.bot_user@ ==> r.0.stage is AwaitingListings && r.1 is FetchListings
                && form_model(r.1->FetchListings_form@) == listing_form(state.tdfk@),
    {
        let channel = ev.channel.clone();
        let token = state.bot_user_oauth_token.clone();
        if ev.user == state.bot_user {
            (Workflow { stage: Stage::Done, channel, token }, Action::Finish)
        } else {
            let form = vec![
                (String::from_str("tdfk"), state.tdfk.clone()),
                (String::from_str("is_sp"), String::from_str("false")),
            ];
            assert(form_model(form@) =~= listing_form(state.tdfk@));
            (Workflow { stage: Stage::AwaitingListings, channel, token }, Action::FetchListings { form })
        }
    }

    /// Takes the outcome of the last action and gives the next one. The
    /// diff is made against the records as read, before they are replaced;
    /// a message is posted only after the replacement, and only when some
    /// listing was fresh.
    pub fn step(self, outcome: Outcome) -> (r: (Workflow, Action))
        ensures
            r.0.channel == self.channel,
            r.0.token == self.token,
            (self.stage is AwaitingListings && outcome is Listings) ==> (r.1 is ReadPersisted
                && r.0.stage == Stage::AwaitingPersisted { snapshot: outcome->Listings_0 }),
            (self.stage is AwaitingPersisted && outcome is Persisted) ==> ({
                let snapshot = self.stage->AwaitingPersisted_snapshot@;
                let fresh = fresh_of(persisted_keys(outcome->Persisted_0@), snapshot);
                &&& r.1 is ReplacePersisted
                &&& persisted_keys(r.1->ReplacePersisted_records@) == snapshot_key_seq(snapshot)
                &&& r.0.stage is AwaitingReplace
                &&& (r.0.stage->AwaitingReplace_message is None <==> fresh.len() == 0)
                &&& (r.0.stage->AwaitingReplace_message matches Some(m) ==> m.channel
                    == self.channel && block_models(m.blocks@) == notification_blocks(fresh))
            }),
            (self.stage is AwaitingReplace && outcome is Replaced) ==> (match self.stage->AwaitingReplace_message {
                Some(m) => r.0.stage is AwaitingPost && r.1 == Action::PostMessage {
                    token: self.token,
                    request: m,
                },
                None => r.0.stage is Done && r.1 is Finish,
            }),
            !((self.stage is AwaitingListings && outcome is Listings) || (self.stage is AwaitingPersisted
                && outcome is Persisted) || (self.stage is AwaitingReplace && outcome is Replaced))
                ==> r.0.stage is Done && r.1 is Finish,
    {
        let Workflow { stage, channel, token } = self;
        match (stage, outcome) {
            (Stage::AwaitingListings, Outcome::Listings(snapshot)) => (
                Workflow { stage: Stage::AwaitingPersisted { snapshot }, channel, token },
                Action::ReadPersisted,
            ),
            (Stage::AwaitingPersisted { snapshot }, Outcome::Persisted(records)) => {
                let fresh_bukkens = filter_fresh(&records, &snapshot);
                let message = match bukkens_to_blocks(fresh_bukkens) {
                    Some(blocks) => Some(PostMessageRequest { blocks, channel: channel.clone() }),
                    None => None,
                };
                let keys = snapshot_keys(&snapshot);
                (
                    Workflow { stage: Stage::AwaitingReplace { message }, channel, token },
                    Action::ReplacePersisted { records: keys },
                )
            },
            (Stage::AwaitingReplace { message }, Outcome::Replaced) => match message {
                Some(request) => {
                    let post_token = token.clone();
                    (
                        Workflow { stage: Stage::AwaitingPost, channel, token },
                        Action::PostMessage { token: post_token, request },
                    )
                },
                None => (Workflow { stage: Stage::Done, channel, token }, Action::Finish),
            },
            (_, _) => (Workflow { stage: Stage::Done, channel, token }, Action::Finish),
        }
    }
}

} // verus!
