//! Reporting what is played to listening services: which services there
//! are, what is asked of them, and what is kept back while a sign-in is
//! under way.

use std::collections::VecDeque;
use vstd::prelude::*;
use vstd::string::StringExecFns;

verus! {

/// A service that takes reports of what is played.
#[derive(Clone, Copy, Debug, PartialEq, Eq, Hash, Structural)]
pub enum ScrobblingService {
    LastFm,
    LibreFm,
    ListenBrainz,
}

/// What is asked of a service.
#[derive(Clone, Copy, Debug, PartialEq, Eq, Hash, Structural)]
pub enum ActionType {
    Authenticate,
    Scrobbling,
    UpdateNowPlaying,
}

/// A failure of one action at one service, with the service's message.
#[derive(Debug)]
pub struct ScrobblingError {
    pub service: ScrobblingService,
    pub action: ActionType,
    pub error: String,
}

/// What a sign-in at a service takes.
#[derive(Debug)]
pub struct Credentials {
    pub service: ScrobblingService,
    pub username: String,
    pub password: String,
    pub api_key: Option<String>,
    pub api_secret: Option<String>,
}

/// Tracks kept back for "now playing" while a sign-in is under way.
pub const NOW_PLAYING_CACHE_LIMIT: usize = 1;

/// Tracks kept back for scrobbling while a sign-in is under way.
pub const SCROBBLE_CACHE_LIMIT: usize = 48;

/// What to do after a failed attempt.
#[derive(Clone, Copy, Debug, PartialEq, Eq, Structural)]
pub enum RetryStep {
    /// Wait for the retry delay, then try again.
    Retry,
    /// The attempts are used up: report the failure.
    GiveUp,
}

/// A queue with a limit, after `item` joins it: the item stands last, and
/// once the queue is over its limit the item that stood first leaves.
pub open spec fn kept_back<T>(queue: Seq<T>, item: T, limit: nat) -> Seq<T> {
    if queue.len() + 1 > limit {
        queue.push(item).drop_first()
    } else {
        queue.push(item)
    }
}

/// Puts `item` at the end of a queue of at most `limit` items and drops the
/// first item where the queue would grow beyond the limit.
pub fn keep_back<T>(queue: &mut VecDeque<T>, item: T, limit: usize)
    requires
        old(queue)@.len() <= limit,
    ensures
        final(queue)@ == kept_back(old(queue)@, item, limit as nat),
        final(queue)@.len() <= limit,
        limit > 0 ==> final(queue)@.len() > 0 && final(queue)@.last() == item,
{
    queue.push_back(item);
    if queue.len() > limit {
        let _ = queue.pop_front();
    }
}

/// Decides what follows the failure of an attempt that `failed_before`
/// failures came before: with that failure counted, the attempts are used up
/// once they are as many as `max_retries`.
pub fn retry_step(failed_before: u32, max_retries: u32) -> (step: RetryStep)
    ensures
        step == if failed_before + 1 >= max_retries {
            RetryStep::GiveUp
        } else {
            RetryStep::Retry
        },
{
    if failed_before >= max_retries || failed_before + 1 >= max_retries {
        RetryStep::GiveUp
    } else {
        RetryStep::Retry
    }
}

/// What the manager knows of its client of one service.
#[derive(Debug)]
pub enum Client {
    /// No client was set up.
    Absent,
    /// A client is set up and has no session.
    SignedOut,
    /// A client is set up and has a session with this key.
    SignedIn(String),
}

/// The mathematical content of a [`Client`].
pub enum ClientView {
    Absent,
    SignedOut,
    SignedIn(Seq<char>),
}

impl View for Client {
    type V = ClientView;

    open spec fn view(&self) -> ClientView {
        match self {
            Client::Absent => ClientView::Absent,
            Client::SignedOut => ClientView::SignedOut,
            Client::SignedIn(key) => ClientView::SignedIn(key@),
        }
    }
}

/// What happened to a sign-in.
#[derive(Debug)]
pub enum AuthEvent {
    /// It begins.
    Begin,
    /// An attempt failed, after this many failed attempts before it.
    Failed(u32),
    /// An attempt succeeded and gave a session with this key.
    Succeeded(String),
}

/// What a sign-in does next.
#[derive(Debug)]
pub enum AuthStep<T> {
    /// Try to sign in.
    Attempt,
    /// The credentials miss what the service takes: report this message.
    Refused(String),
    /// Wait for the retry delay, then try again.
    Retry,
    /// The attempts are used up: report the failure of the last.
    GiveUp,
    /// The sign-in is over: send what was kept back to every service with a
    /// session.
    Done(Backlog<T>),
}

/// What becomes of a track that was handed in for one service.
#[derive(Debug)]
pub enum Dispatch<T> {
    /// A sign-in is under way: the track is kept back.
    Cached,
    /// The service has a session: send the track to it.
    Send(T),
    /// The service has no session: the track goes nowhere.
    Skipped(T),
}

/// What becomes of a track that was handed in for every service.
#[derive(Debug)]
pub enum DispatchAll<T> {
    /// A sign-in is under way: the track is kept back.
    Cached,
    /// Send the track to these services, which are those with a session.
    Send(Vec<ScrobblingService>, T),
}

/// The tracks that were kept back during a sign-in, oldest first.
#[derive(Debug)]
pub struct Backlog<T> {
    pub now_playing: VecDeque<T>,
    pub scrobbles: VecDeque<T>,
}

/// The state of a manager: its clients, whether a sign-in is under way, and
/// what is kept back.
pub struct ManagerView<T> {
    pub lastfm: ClientView,
    pub librefm: ClientView,
    pub listenbrainz: ClientView,
    pub max_retries: u32,
    pub is_authenticating: bool,
    pub now_playing_cache: Seq<T>,
    pub scrobble_cache: Seq<T>,
}

impl<T> ManagerView<T> {
    /// The client of a service.
    pub open spec fn client(self, service: ScrobblingService) -> ClientView {
        match service {
            ScrobblingService::LastFm => self.lastfm,
            ScrobblingService::LibreFm => self.librefm,
            ScrobblingService::ListenBrainz => self.listenbrainz,
        }
    }

    /// The state with another client of one service.
    pub open spec fn with_client(self, service: ScrobblingService, client: ClientView)
        -> ManagerView<T> {
        match service {
            ScrobblingService::LastFm => ManagerView { lastfm: client, ..self },
            ScrobblingService::LibreFm => ManagerView { librefm: client, ..self },
            ScrobblingService::ListenBrainz => ManagerView { listenbrainz: client, ..self },
        }
    }

    /// The services with a session, in their fixed order.
    pub open spec fn signed_in(self) -> Seq<ScrobblingService> {
        (if self.lastfm is SignedIn {
            seq![ScrobblingService::LastFm]
        } else {
            seq![]
        }) + (if self.librefm is SignedIn {
            seq![ScrobblingService::LibreFm]
        } else {
            seq![]
        }) + (if self.listenbrainz is SignedIn {
            seq![ScrobblingService::ListenBrainz]
        } else {
            seq![]
        })
    }
}

/// The message of a sign-in that cannot even be tried: Last.fm takes an API
/// key and an API secret, and the key is missed first.
pub open spec fn missing_credential(
    service: ScrobblingService,
    has_key: bool,
    has_secret: bool,
) -> Option<Seq<char>> {
    if service != ScrobblingService::LastFm {
        None
    } else if !has_key {
        Some("Last.fm requires API key"@)
    } else if !has_secret {
        Some("Last.fm requires API secret"@)
    } else {
        None
    }
}

/// The message for restoring a session where no client was set up.
pub open spec fn not_initialized(service: ScrobblingService) -> Seq<char> {
    match service {
        ScrobblingService::LastFm => "Last.fm client not initialized"@,
        ScrobblingService::LibreFm => "Libre.fm client not initialized"@,
        ScrobblingService::ListenBrainz => "ListenBrainz client not initialized"@,
    }
}

/// Keeps the clients of the services, and keeps tracks back while a sign-in
/// is under way. Talking to the services is the caller's part.
#[derive(Debug)]
pub struct ScrobblingManager<T> {
    lastfm: Client,
    librefm: Client,
    listenbrainz: Client,
    max_retries: u32,
    is_authenticating: bool,
    now_playing_cache: VecDeque<T>,
    scrobble_cache: VecDeque<T>,
}

impl<T> View for ScrobblingManager<T> {
    type V = ManagerView<T>;

    closed spec fn view(&self) -> ManagerView<T> {
        ManagerView {
            lastfm: self.lastfm@,
            librefm: self.librefm@,
            listenbrainz: self.listenbrainz@,
            max_retries: self.max_retries,
            is_authenticating: self.is_authenticating,
            now_playing_cache: self.now_playing_cache@,
            scrobble_cache: self.scrobble_cache@,
        }
    }
}

impl<T> ScrobblingManager<T> {
    /// Neither queue is over its limit. Every manager that this module
    /// hands out is well formed.
    pub open spec fn well_formed(&self) -> bool {
        self@.now_playing_cache.len() <= NOW_PLAYING_CACHE_LIMIT && self@.scrobble_cache.len()
            <= SCROBBLE_CACHE_LIMIT
    }

    /// A manager without clients that gives an action up after
    /// `max_retries` failed attempts.
    pub fn new(max_retries: u32) -> (manager: ScrobblingManager<T>)
        ensures
            manager.well_formed(),
            manager@ == (ManagerView::<T> {
                lastfm: ClientView::Absent,
                librefm: ClientView::Absent,
                listenbrainz: ClientView::Absent,
                max_retries,
                is_authenticating: false,
                now_playing_cache: Seq::empty(),
                scrobble_cache: Seq::empty(),
            }),
    {
        ScrobblingManager {
            lastfm: Client::Absent,
            librefm: Client::Absent,
            listenbrainz: Client::Absent,
            max_retries,
            is_authenticating: false,
            now_playing_cache: VecDeque::with_capacity(NOW_PLAYING_CACHE_LIMIT),
            scrobble_cache: VecDeque::with_capacity(SCROBBLE_CACHE_LIMIT),
        }
    }

    /// After how many failed attempts an action is given up.
    pub fn max_retries(&self) -> (limit: u32)
        ensures
            limit == self@.max_retries,
    {
        self.max_retries
    }

    /// Tells whether a sign-in is under way.
    pub fn is_authenticating(&self) -> (under_way: bool)
        ensures
            under_way == self@.is_authenticating,
    {
        self.is_authenticating
    }

    /// Takes a sign-in at the service of `credentials` one step further.
    ///
    /// At its beginning the sign-in counts as under way, so that tracks are
    /// kept back, and is refused where the credentials miss what the service
    /// takes; it then still counts as under way. After a failed attempt it is
    /// tried again until the attempts are used up, which ends it. After an
    /// attempt that succeeded the client has the session, the sign-in is
    /// over, and the tracks that were kept back are handed out, to go to
    /// every service with a session.
    pub fn authenticate(&mut self, credentials: &Credentials, event: AuthEvent) -> (step: AuthStep<
        T,
    >)
        ensures
            match event {
                AuthEvent::Begin => final(self)@ == (ManagerView {
                    is_authenticating: true,
                    ..old(self)@
                }) && match missing_credential(
                    credentials.service,
                    credentials.api_key is Some,
                    credentials.api_secret is Some,
                ) {
                    Some(message) => step matches AuthStep::Refused(m) && m@ == message,
                    None => step is Attempt,
                },
                AuthEvent::Failed(failed_before) => if failed_before + 1 >= old(
                    self,
                )@.max_retries {
                    step is GiveUp && final(self)@ == (ManagerView {
                        is_authenticating: false,
                        ..old(self)@
                    })
                } else {
                    step is Retry && final(self)@ == old(self)@
                },
                AuthEvent::Succeeded(session_key) => step matches AuthStep::Done(backlog)
                    && backlog.now_playing@ == old(self)@.now_playing_cache && backlog.scrobbles@
                    == old(self)@.scrobble_cache && final(self).well_formed() && final(self)@ == (
                ManagerView {
                    is_authenticating: false,
                    now_playing_cache: Seq::empty(),
                    scrobble_cache: Seq::empty(),
                    ..old(self)@.with_client(
                        credentials.service,
                        ClientView::SignedIn(session_key@),
                    )
                }),
            },
            old(self).well_formed() ==> final(self).well_formed(),
    {
        match event {
            AuthEvent::Begin => {
                self.is_authenticating = true;
                match credentials.service {
                    ScrobblingService::LastFm => {
                        if credentials.api_key.is_none() {
                            AuthStep::Refused(String::from_str("Last.fm requires API key"))
                        } else if credentials.api_secret.is_none() {
                            AuthStep::Refused(String::from_str("Last.fm requires API secret"))
                        } else {
                            AuthStep::Attempt
                        }
                    },
                    _ => AuthStep::Attempt,
                }
            },
            AuthEvent::Failed(failed_before) => {
                match retry_step(failed_before, self.max_retries) {
                    RetryStep::GiveUp => {
                        self.is_authenticating = false;
                        AuthStep::GiveUp
                    },
                    RetryStep::Retry => AuthStep::Retry,
                }
            },
            AuthEvent::Succeeded(session_key) => {
                self.set_client(credentials.service, Client::SignedIn(session_key));
                self.is_authenticating = false;
                let mut now_playing: VecDeque<T> = VecDeque::with_capacity(
                    NOW_PLAYING_CACHE_LIMIT,
                );
                let mut scrobbles: VecDeque<T> = VecDeque::with_capacity(SCROBBLE_CACHE_LIMIT);
                core::mem::swap(&mut now_playing, &mut self.now_playing_cache);
                core::mem::swap(&mut scrobbles, &mut self.scrobble_cache);
                AuthStep::Done(Backlog { now_playing, scrobbles })
            },
        }
    }

    /// Puts a client in the place of the one of `service`.
    fn set_client(&mut self, service: ScrobblingService, client: Client)
        ensures
            final(self)@ == old(self)@.with_client(service, client@),
    {
        match service {
            ScrobblingService::LastFm => {
                self.lastfm = client;
            },
            ScrobblingService::LibreFm => {
                self.librefm = client;
            },
            ScrobblingService::ListenBrainz => {
                self.listenbrainz = client;
            },
        }
    }

    /// Tells whether the client of `service` has a session.
    pub fn has_session(&self, service: ScrobblingService) -> (signed_in: bool)
        ensures
            signed_in == self@.client(service) is SignedIn,
    {
        match service {
            ScrobblingService::LastFm => matches!(self.lastfm, Client::SignedIn(_)),
            ScrobblingService::LibreFm => matches!(self.librefm, Client::SignedIn(_)),
            ScrobblingService::ListenBrainz => matches!(self.listenbrainz, Client::SignedIn(_)),
        }
    }

    /// Gives the client of `service` the session `session_key`. Fails where
    /// no client was set up.
    pub fn restore_session(&mut self, service: ScrobblingService, session_key: String) -> (restored:
        Result<(), String>)
        ensures
            match old(self)@.client(service) {
                ClientView::Absent => restored matches Err(m) && m@ == not_initialized(service)
                    && final(self)@ == old(self)@,
                _ => restored is Ok && final(self)@ == old(self)@.with_client(
                    service,
                    ClientView::SignedIn(session_key@),
                ),
            },
    {
        let absent = match service {
            ScrobblingService::LastFm => matches!(self.lastfm, Client::Absent),
            ScrobblingService::LibreFm => matches!(self.librefm, Client::Absent),
            ScrobblingService::ListenBrainz => matches!(self.listenbrainz, Client::Absent),
        };
        if absent {
            Err(
                match service {
                    ScrobblingService::LastFm => String::from_str("Last.fm client not initialized"),
                    ScrobblingService::LibreFm => String::from_str(
                        "Libre.fm client not initialized",
                    ),
                    ScrobblingService::ListenBrainz => String::from_str(
                        "ListenBrainz client not initialized",
                    ),
                },
            )
        } else {
            self.set_client(service, Client::SignedIn(session_key));
            Ok(())
        }
    }

    /// Takes a track that is now playing, for one service. While a sign-in
    /// is under way it is kept back, in place of the track that was.
    pub fn update_now_playing(&mut self, service: ScrobblingService, track: T) -> (dispatch:
        Dispatch<T>)
        requires
            old(self).well_formed(),
        ensures
            final(self).well_formed(),
            if old(self)@.is_authenticating {
                dispatch is Cached && final(self)@ == (ManagerView {
                    now_playing_cache: kept_back(
                        old(self)@.now_playing_cache,
                        track,
                        NOW_PLAYING_CACHE_LIMIT as nat,
                    ),
                    ..old(self)@
                })
            } else {
                final(self)@ == old(self)@ && dispatch == if old(self)@.client(service)
                    is SignedIn {
                    Dispatch::Send(track)
                } else {
                    Dispatch::Skipped(track)
                }
            },
    {
        if self.is_authenticating {
            keep_back(&mut self.now_playing_cache, track, NOW_PLAYING_CACHE_LIMIT);
            Dispatch::Cached
        } else if self.has_session(service) {
            Dispatch::Send(track)
        } else {
            Dispatch::Skipped(track)
        }
    }

    /// Takes a track to scrobble, for one service. While a sign-in is under
    /// way it is kept back, behind the tracks that are.
    pub fn scrobble(&mut self, service: ScrobblingService, track: T) -> (dispatch: Dispatch<T>)
        requires
            old(self).well_formed(),
        ensures
            final(self).well_formed(),
            if old(self)@.is_authenticating {
                dispatch is Cached && final(self)@ == (ManagerView {
                    scrobble_cache: kept_back(
                        old(self)@.scrobble_cache,
                        track,
                        SCROBBLE_CACHE_LIMIT as nat,
                    ),
                    ..old(self)@
                })
            } else {
                final(self)@ == old(self)@ && dispatch == if old(self)@.client(service)
                    is SignedIn {
                    Dispatch::Send(track)
                } else {
                    Dispatch::Skipped(track)
                }
            },
    {
        if self.is_authenticating {
            keep_back(&mut self.scrobble_cache, track, SCROBBLE_CACHE_LIMIT);
            Dispatch::Cached
        } else if self.has_session(service) {
            Dispatch::Send(track)
        } else {
            Dispatch::Skipped(track)
        }
    }

    /// The services with a session, in their fixed order.
    pub fn signed_in(&self) -> (services: Vec<ScrobblingService>)
        ensures
            services@ == self@.signed_in(),
    {
        let mut services: Vec<ScrobblingService> = Vec::new();
        if self.has_session(ScrobblingService::LastFm) {
            services.push(ScrobblingService::LastFm);
        }
        if self.has_session(ScrobblingService::LibreFm) {
            services.push(ScrobblingService::LibreFm);
        }
        if self.has_session(ScrobblingService::ListenBrainz) {
            services.push(ScrobblingService::ListenBrainz);
        }
        assert(services@ =~= self@.signed_in());
        services
    }

    /// Takes a track that is now playing, for every service. While a
    /// sign-in is under way it is kept back, in place of the track that was.
    pub fn update_now_playing_all(&mut self, track: T) -> (dispatch: DispatchAll<T>)
        requires
            old(self).well_formed(),
        ensures
            final(self).well_formed(),
            if old(self)@.is_authenticating {
                dispatch is Cached && final(self)@ == (ManagerView {
                    now_playing_cache: kept_back(
                        old(self)@.now_playing_cache,
                        track,
                        NOW_PLAYING_CACHE_LIMIT as nat,
                    ),
                    ..old(self)@
                })
            } else {
                dispatch matches DispatchAll::Send(services, t) && t == track && services@
                    == old(self)@.signed_in() && final(self)@ == old(self)@
            },
    {
        if self.is_authenticating {
            keep_back(&mut self.now_playing_cache, track, NOW_PLAYING_CACHE_LIMIT);
            DispatchAll::Cached
        } else {
            DispatchAll::Send(self.signed_in(), track)
        }
    }

    /// Takes a track to scrobble, for every service. While a sign-in is
    /// under way it is kept back, behind the tracks that are.
    pub fn scrobble_all(&mut self, track: T) -> (dispatch: DispatchAll<T>)
        requires
            old(self).well_formed(),
        ensures
            final(self).well_formed(),
            if old(self)@.is_authenticating {
                dispatch is Cached && final(self)@ == (ManagerView {
                    scrobble_cache: kept_back(
                        old(self)@.scrobble_cache,
                        track,
                        SCROBBLE_CACHE_LIMIT as nat,
                    ),
                    ..old(self)@
                })
            } else {
                dispatch matches DispatchAll::Send(services, t) && t == track && services@
                    == old(self)@.signed_in() && final(self)@ == old(self)@
            },
    {
        if self.is_authenticating {
            keep_back(&mut self.scrobble_cache, track, SCROBBLE_CACHE_LIMIT);
            DispatchAll::Cached
        } else {
            DispatchAll::Send(self.signed_in(), track)
        }
    }
}

} // verus!
