//! Data types returned by the API, and the request each endpoint stands
//! for. An endpoint function determines the full URL and query of its GET;
//! performing it and decoding the typed records happens outside, and
//! selection rules (such as expecting exactly one record) are here.

use vstd::prelude::*;
use crate::HELIX_BASE_URL;
use crate::error::{Error, ErrorV};
use crate::text::{strings_view, pairs_view, chars_of_bytes, dec_digits, u64_to_dec};

verus! {

/// An unvalidated game ID.
pub struct GameId(pub String);

/// An unvalidated stream ID.
pub struct StreamId(pub String);

/// An unvalidated stream tag ID.
pub struct TagId(pub String);

/// An unvalidated user/channel ID.
pub struct UserId(pub String);

/// An unvalidated video ID.
pub struct VideoId(pub String);

impl View for GameId {
    type V = Seq<char>;

    open spec fn view(&self) -> Seq<char> {
        self.0@
    }
}

impl View for StreamId {
    type V = Seq<char>;

    open spec fn view(&self) -> Seq<char> {
        self.0@
    }
}

impl View for TagId {
    type V = Seq<char>;

    open spec fn view(&self) -> Seq<char> {
        self.0@
    }
}

impl View for UserId {
    type V = Seq<char>;

    open spec fn view(&self) -> Seq<char> {
        self.0@
    }
}

impl View for VideoId {
    type V = Seq<char>;

    open spec fn view(&self) -> Seq<char> {
        self.0@
    }
}

/// A fully determined GET request: absolute URL and query parameters.
pub struct Request {
    pub url: String,
    pub query: Vec<(String, String)>,
}

/// Each value paired with the same key, in order.
pub open spec fn keyed(key: Seq<char>, vals: Seq<Seq<char>>) -> Seq<(Seq<char>, Seq<char>)> {
    vals.map_values(|v: Seq<char>| (key, v))
}

/// The views of a sequence of game IDs.
pub open spec fn game_ids_view(s: Seq<GameId>) -> Seq<Seq<char>> {
    s.map_values(|g: GameId| g@)
}

/// The views of a sequence of user IDs.
pub open spec fn user_ids_view(s: Seq<UserId>) -> Seq<Seq<char>> {
    s.map_values(|u: UserId| u@)
}

fn keyed_params(key: &str, values: &Vec<String>) -> (q: Vec<(String, String)>)
    ensures
        pairs_view(q@) == keyed(key@, strings_view(values@)),
{
    let ghost target = keyed(key@, strings_view(values@));
    let mut q: Vec<(String, String)> = Vec::new();
    let mut i: usize = 0;
    while i < values.len()
        invariant
            0 <= i <= values@.len(),
            target == keyed(key@, strings_view(values@)),
            pairs_view(q@) =~= target.take(i as int),
        decreases values@.len() - i,
    {
        q.push((String::from_str(key), values[i].clone()));
        proof {
            assert(pairs_view(q@) =~= target.take(i as int).push((key@, values@[i as int]@)));
            assert(target.take(i + 1) =~= target.take(i as int).push(target[i as int]));
        }
        i += 1;
    }
    proof {
        assert(target.take(values@.len() as int) =~= target);
    }
    q
}

fn game_id_strings(ids: &Vec<GameId>) -> (r: Vec<String>)
    ensures
        strings_view(r@) == game_ids_view(ids@),
{
    let ghost target = game_ids_view(ids@);
    let mut r: Vec<String> = Vec::new();
    let mut i: usize = 0;
    while i < ids.len()
        invariant
            0 <= i <= ids@.len(),
            target == game_ids_view(ids@),
            strings_view(r@) =~= target.take(i as int),
        decreases ids@.len() - i,
    {
        r.push(ids[i].0.clone());
        proof {
            assert(strings_view(r@) =~= target.take(i as int).push(target[i as int]));
            assert(target.take(i + 1) =~= target.take(i as int).push(target[i as int]));
        }
        i += 1;
    }
    proof {
        assert(target.take(ids@.len() as int) =~= target);
    }
    r
}

fn user_id_strings(ids: &Vec<UserId>) -> (r: Vec<String>)
    ensures
        strings_view(r@) == user_ids_view(ids@),
{
    let ghost target = user_ids_view(ids@);
    let mut r: Vec<String> = Vec::new();
    let mut i: usize = 0;
    while i < ids.len()
        invariant
            0 <= i <= ids@.len(),
            target == user_ids_view(ids@),
            strings_view(r@) =~= target.take(i as int),
        decreases ids@.len() - i,
    {
        r.push(ids[i].0.clone());
        proof {
            assert(strings_view(r@) =~= target.take(i as int).push(target[i as int]));
            assert(target.take(i + 1) =~= target.take(i as int).push(target[i as int]));
        }
        i += 1;
    }
    proof {
        assert(target.take(ids@.len() as int) =~= target);
    }
    r
}

/// Selects the single item a call is owed: exactly one is returned as is;
/// zero or several are the ambiguity error.
pub fn exactly_one<T>(items: Vec<T>) -> (r: Result<T, Error>)
    ensures
        items@.len() == 1 ==> (r matches Ok(x) && x == items@[0]),
        items@.len() == 0 ==> (r matches Err(e) && e@ == (ErrorV::EmptyOrAmbiguous {
            empty: true,
        })),
        items@.len() > 1 ==> (r matches Err(e) && e@ == (ErrorV::EmptyOrAmbiguous {
            empty: false,
        })),
{
    let mut items = items;
    if items.len() == 1 {
        match items.pop() {
            Some(x) => Ok(x),
            None => {
                proof {
                    assert(false);
                }
                Err(Error::EmptyOrAmbiguous { empty: true })
            },
        }
    } else if items.len() == 0 {
        Err(Error::EmptyOrAmbiguous { empty: true })
    } else {
        Err(Error::EmptyOrAmbiguous { empty: false })
    }
}

/// A "follow" relationship: `from` follows `to`. Timestamps are kept as
/// the wire text.
pub struct Follow {
    pub from_id: UserId,
    pub from_name: String,
    pub to_id: UserId,
    pub to_name: String,
    pub followed_at: String,
}

impl Follow {
    /// The paginated request listing all users followed by the given user.
    pub fn from(from_id: UserId) -> (r: Request)
        ensures
            r.url@ == HELIX_BASE_URL@ + "/users/follows"@,
            pairs_view(r.query@) == seq![("from_id"@, from_id@)],
    {
        let mut query: Vec<(String, String)> = Vec::new();
        query.push((String::from_str("from_id"), from_id.0));
        proof {
            assert(pairs_view(query@) =~= seq![("from_id"@, from_id@)]);
        }
        Request { url: crate::client::helix_url("/users/follows"), query }
    }
}

/// A game, as the API describes one. URLs are kept as the wire text.
pub struct Game {
    pub box_art_url: Option<String>,
    pub id: GameId,
    pub name: String,
}

impl Game {
    /// The paginated request for the games with the given IDs, returned in
    /// arbitrary order. A maximum of 100 game IDs may be given.
    pub fn list(ids: Vec<GameId>) -> (r: Request)
        ensures
            r.url@ == HELIX_BASE_URL@ + "/games"@,
            pairs_view(r.query@) == keyed("id"@, game_ids_view(ids@)),
    {
        let strings = game_id_strings(&ids);
        Request { url: crate::client::helix_url("/games"), query: keyed_params("id", &strings) }
    }
}

impl GameId {
    /// The request for this single game; its response list is owed exactly
    /// one record, selected with [`exactly_one`].
    pub fn get(&self) -> (r: Request)
        ensures
            r.url@ == HELIX_BASE_URL@ + "/games"@,
            pairs_view(r.query@) == seq![("id"@, self@)],
    {
        let mut query: Vec<(String, String)> = Vec::new();
        query.push((String::from_str("id"), self.0.clone()));
        proof {
            assert(pairs_view(query@) =~= seq![("id"@, self@)]);
        }
        Request { url: crate::client::helix_url("/games"), query }
    }
}

/// A chunk of chat log.
pub struct Chatlog {
    /// The messages in this part of the chat log.
    pub comments: Vec<Message>,
}

/// One chat message.
pub struct Message {
    /// The details of the message.
    pub message: MessageMessage,
    /// Opaque; kept as the wire text.
    pub more_replies: String,
    /// Moderation state of the message.
    pub state: MessageState,
}

/// The details of a chat message.
pub struct MessageMessage {
    /// The message text.
    pub body: String,
    /// True if this is an action message.
    pub is_action: bool,
    /// The color the user chose for their nickname, if any, in hex format.
    pub user_color: Option<String>,
}

/// Moderation state of a chat message.
pub enum MessageState {
    /// The only known value.
    Published,
}

impl VideoId {
    /// The request for the chunk of chat log of this video starting at the
    /// given offset, in seconds, from the video's beginning.
    pub fn chatlog_after_timestamp(&self, start_seconds: u64) -> (r: Request)
        ensures
            r.url@ == "https://api.twitch.tv/v5/videos/"@ + self@ + "/comments"@,
            pairs_view(r.query@) == seq![
                ("content_offset_seconds"@, chars_of_bytes(dec_digits(start_seconds as nat))),
            ],
    {
        let mut url = String::from_str("https://api.twitch.tv/v5/videos/");
        url.append(self.0.as_str());
        url.append("/comments");
        let mut query: Vec<(String, String)> = Vec::new();
        let seconds = u64_to_dec(start_seconds);
        let ghost seconds_view = seconds@;
        query.push((String::from_str("content_offset_seconds"), seconds));
        proof {
            assert(pairs_view(query@) =~= seq![("content_offset_seconds"@, seconds_view)]);
        }
        Request { url, query }
    }
}

/// The type of a stream.
pub enum StreamType {
    /// A regular live stream.
    Live,
    /// Reported by the server in case of error.
    Error,
}

/// A live stream. Timestamps and URLs are kept as the wire text.
pub struct Stream {
    pub game_id: GameId,
    pub id: StreamId,
    pub language: String,
    pub started_at: String,
    pub tag_ids: Vec<TagId>,
    pub thumbnail_url: String,
    pub title: String,
    pub stream_type: StreamType,
    pub user_id: UserId,
    pub user_name: String,
    pub viewer_count: u64,
}

/// The query segments of a streams listing, in order: game filters, then
/// user filters, then language filters; an absent filter contributes
/// nothing.
pub open spec fn stream_list_params(
    games: Option<Vec<GameId>>,
    users: Option<Vec<UserId>>,
    languages: Option<Vec<String>>,
) -> Seq<(Seq<char>, Seq<char>)> {
    (match games {
        Some(g) => keyed("game_id"@, game_ids_view(g@)),
        None => Seq::empty(),
    }) + (match users {
        Some(u) => keyed("user_id"@, user_ids_view(u@)),
        None => Seq::empty(),
    }) + (match languages {
        Some(l) => keyed("language"@, strings_view(l@)),
        None => Seq::empty(),
    })
}

impl Stream {
    /// The paginated request listing streams by decreasing viewer count,
    /// optionally filtered. `games` is limited to 10 entries, the other
    /// filters to 100 each.
    pub fn list(
        games: Option<Vec<GameId>>,
        users: Option<Vec<UserId>>,
        languages: Option<Vec<String>>,
    ) -> (r: Request)
        ensures
            r.url@ == HELIX_BASE_URL@ + "/streams"@,
            pairs_view(r.query@) == stream_list_params(games, users, languages),
    {
        let mut query: Vec<(String, String)> = Vec::new();
        let ghost game_part = match &games {
            Some(g) => keyed("game_id"@, game_ids_view(g@)),
            None => Seq::empty(),
        };
        let ghost user_part = match &users {
            Some(u) => keyed("user_id"@, user_ids_view(u@)),
            None => Seq::empty(),
        };
        let ghost language_part = match &languages {
            Some(l) => keyed("language"@, strings_view(l@)),
            None => Seq::empty(),
        };
        if let Some(g) = games {
            let strings = game_id_strings(&g);
            let mut part = keyed_params("game_id", &strings);
            query.append(&mut part);
        }
        proof {
            assert(pairs_view(query@) =~= game_part);
        }
        if let Some(u) = users {
            let strings = user_id_strings(&u);
            let mut part = keyed_params("user_id", &strings);
            query.append(&mut part);
        }
        proof {
            assert(pairs_view(query@) =~= game_part + user_part);
        }
        if let Some(l) = languages {
            let mut part = keyed_params("language", &l);
            query.append(&mut part);
        }
        proof {
            assert(pairs_view(query@) =~= game_part + user_part + language_part);
        }
        Request { url: crate::client::helix_url("/streams"), query }
    }

    /// The request for the game being streamed; its response list is owed
    /// exactly one record, selected with [`exactly_one`].
    pub fn game(&self) -> (r: Request)
        ensures
            r.url@ == HELIX_BASE_URL@ + "/games"@,
            pairs_view(r.query@) == seq![("id"@, self.game_id@)],
    {
        self.game_id.get()
    }

    /// A URL to this stream.
    pub fn url(&self) -> (r: String)
        ensures
            r@ == "https://twitch.tv/streams/"@ + self.id@ + "/channel/"@ + self.user_id@,
    {
        let mut r = String::from_str("https://twitch.tv/streams/");
        r.append(self.id.0.as_str());
        r.append("/channel/");
        r.append(self.user_id.0.as_str());
        r
    }
}

/// A broadcaster's standing.
pub enum BroadcasterType {
    Partner,
    Affiliate,
    Regular,
}

/// A user's site-wide role.
pub enum UserType {
    Staff,
    Admin,
    GlobalMod,
    Regular,
}

/// A user or channel.
pub struct User {
    pub broadcaster_type: BroadcasterType,
    pub description: String,
    pub display_name: String,
    /// Only included if the client has the scope that reads it.
    pub email: Option<String>,
    pub id: UserId,
    pub login: String,
    pub user_type: UserType,
    pub view_count: u64,
}

impl User {
    /// The paginated request for the users with the given login names, in
    /// arbitrary order. A maximum of 100 names may be given.
    pub fn by_names(names: Vec<String>) -> (r: Request)
        ensures
            r.url@ == HELIX_BASE_URL@ + "/users"@,
            pairs_view(r.query@) == keyed("login"@, strings_view(names@)),
    {
        Request { url: crate::client::helix_url("/users"), query: keyed_params("login", &names) }
    }

    /// The paginated request for the users with the given IDs, in
    /// arbitrary order. A maximum of 100 IDs may be given.
    pub fn list(ids: Vec<UserId>) -> (r: Request)
        ensures
            r.url@ == HELIX_BASE_URL@ + "/users"@,
            pairs_view(r.query@) == keyed("id"@, user_ids_view(ids@)),
    {
        let strings = user_id_strings(&ids);
        Request { url: crate::client::helix_url("/users"), query: keyed_params("id", &strings) }
    }

    /// The request for the user the client is logged in as; its response
    /// list is owed exactly one record, selected with [`exactly_one`].
    pub fn me() -> (r: Request)
        ensures
            r.url@ == HELIX_BASE_URL@ + "/users"@,
            pairs_view(r.query@) == Seq::<(Seq<char>, Seq<char>)>::empty(),
    {
        let query: Vec<(String, String)> = Vec::new();
        proof {
            assert(pairs_view(query@) =~= Seq::<(Seq<char>, Seq<char>)>::empty());
        }
        Request { url: crate::client::helix_url("/users"), query }
    }
}

} // verus!
