//! The activity value types and their fluent builders.
//!
//! Every type here is a plain value: a default constructor leaves every
//! optional field unset, and each setter returns an updated owned value
//! with exactly one field made present.  No setter validates or fails;
//! the documented length and cardinality bounds are advisory and left to
//! the remote peer.  The one normalization is on `Activity::buttons`: an
//! empty list is treated as "no buttons" and leaves the field absent.

use vstd::prelude::*;

verus! {

/// A clickable link surfaced with an activity: a label/URL pair.
///
/// Both fields are required at construction.  The documented bounds
/// (label 1–32 characters, URL 1–512 characters) are not enforced here.
#[derive(Clone)]
pub struct Button {
    /// Text shown on the button.
    pub label: String,
    /// URL opened when the button is clicked.
    pub url: String,
}

impl Button {
    /// Creates a button from its label and URL.
    pub fn new(label: String, url: String) -> (r: Button)
        ensures
            r.label == label,
            r.url == url,
    {
        Button { label, url }
    }
}

/// The kind of an activity, a closed set of four variants.
///
/// Each variant is bound to a fixed, non-contiguous numeric code on the
/// wire (see [`ActivityType::code`]); the gaps are reserved by the
/// remote protocol and are never produced.
#[derive(Clone)]
pub enum ActivityType {
    /// "Playing X"
    Playing,
    /// "Listening to X"
    Listening,
    /// "Watching X"
    Watching,
    /// "Competing in X"
    Competing,
}

impl ActivityType {
    /// The fixed numeric code of this variant on the wire.
    ///
    /// Codes 1 and 4 are reserved by the remote protocol for variants
    /// this library does not expose.
    pub open spec fn code(self) -> int {
        match self {
            ActivityType::Playing => 0,
            ActivityType::Listening => 2,
            ActivityType::Watching => 3,
            ActivityType::Competing => 5,
        }
    }

    /// Returns the numeric code of this variant.
    pub fn wire_code(&self) -> (c: u8)
        ensures
            c as int == self.code(),
    {
        match self {
            ActivityType::Playing => 0,
            ActivityType::Listening => 2,
            ActivityType::Watching => 3,
            ActivityType::Competing => 5,
        }
    }
}

/// Start and end markers of an activity, in unix seconds.
#[derive(Clone)]
pub struct Timestamps {
    /// Unix timestamp for the start of the activity.
    pub start: Option<i64>,
    /// Unix timestamp for the end of the activity.
    pub end: Option<i64>,
}

impl Timestamps {
    /// Creates a `Timestamps` with both markers unset.
    pub fn new() -> (r: Timestamps)
        ensures
            r.start is None,
            r.end is None,
    {
        Timestamps { start: None, end: None }
    }

    /// Sets the start time.
    pub fn start(self, start: i64) -> (r: Timestamps)
        ensures
            r == (Timestamps { start: Some(start), ..self }),
    {
        Timestamps { start: Some(start), ..self }
    }

    /// Sets the end time.
    pub fn end(self, end: i64) -> (r: Timestamps)
        ensures
            r == (Timestamps { end: Some(end), ..self }),
    {
        Timestamps { end: Some(end), ..self }
    }
}

/// The party (grouping of participants) an activity belongs to.
#[derive(Clone)]
pub struct Party {
    /// Identifier of the party.
    pub id: Option<String>,
    /// Size of the party as an ordered pair: current size first,
    /// maximum size second.
    pub size: Option<(i32, i32)>,
}

impl Party {
    /// Creates a `Party` with both fields unset.
    pub fn new() -> (r: Party)
        ensures
            r.id is None,
            r.size is None,
    {
        Party { id: None, size: None }
    }

    /// Sets the identifier of the party.
    pub fn id(self, id: String) -> (r: Party)
        ensures
            r == (Party { id: Some(id), ..self }),
    {
        Party { id: Some(id), ..self }
    }

    /// Sets the size of the party: current size first, maximum second.
    /// The order of the pair is significant and preserved on the wire.
    pub fn size(self, current_size: i32, max_size: i32) -> (r: Party)
        ensures
            r == (Party { size: Some((current_size, max_size)), ..self }),
    {
        Party { size: Some((current_size, max_size)), ..self }
    }
}

/// Art assets of an activity: image references and their hover text.
#[derive(Clone)]
pub struct Assets {
    /// Image identifier or media proxy for the large image.
    pub large_image: Option<String>,
    /// Text shown when hovering over the large image.
    pub large_text: Option<String>,
    /// Image identifier or media proxy for the small image.
    pub small_image: Option<String>,
    /// Text shown when hovering over the small image.
    pub small_text: Option<String>,
}

impl Assets {
    /// Creates an `Assets` with every field unset.
    pub fn new() -> (r: Assets)
        ensures
            r.large_image is None,
            r.large_text is None,
            r.small_image is None,
            r.small_text is None,
    {
        Assets { large_image: None, large_text: None, small_image: None, small_text: None }
    }

    /// Sets the name or URL of the art asset used as the large image.
    pub fn large_image(self, large_image: String) -> (r: Assets)
        ensures
            r == (Assets { large_image: Some(large_image), ..self }),
    {
        Assets { large_image: Some(large_image), ..self }
    }

    /// Sets the text shown when hovering over the large image.
    pub fn large_text(self, large_text: String) -> (r: Assets)
        ensures
            r == (Assets { large_text: Some(large_text), ..self }),
    {
        Assets { large_text: Some(large_text), ..self }
    }

    /// Sets the name or URL of the art asset used as the small image.
    pub fn small_image(self, small_image: String) -> (r: Assets)
        ensures
            r == (Assets { small_image: Some(small_image), ..self }),
    {
        Assets { small_image: Some(small_image), ..self }
    }

    /// Sets the text shown when hovering over the small image.
    pub fn small_text(self, small_text: String) -> (r: Assets)
        ensures
            r == (Assets { small_text: Some(small_text), ..self }),
    {
        Assets { small_text: Some(small_text), ..self }
    }
}

/// Opaque tokens enabling join, spectate and match actions.
#[derive(Clone)]
pub struct Secrets {
    /// Secret for joining a party.
    pub join: Option<String>,
    /// Secret for spectating a game.
    pub spectate: Option<String>,
    /// Secret for a specific instanced match; rendered under the key
    /// `"match"`.
    pub match_secret: Option<String>,
}

impl Secrets {
    /// Creates a `Secrets` with every field unset.
    pub fn new() -> (r: Secrets)
        ensures
            r.join is None,
            r.spectate is None,
            r.match_secret is None,
    {
        Secrets { join: None, spectate: None, match_secret: None }
    }

    /// Sets the secret for joining a game party.
    pub fn join(self, join: String) -> (r: Secrets)
        ensures
            r == (Secrets { join: Some(join), ..self }),
    {
        Secrets { join: Some(join), ..self }
    }

    /// Sets the secret for spectating a match.
    pub fn spectate(self, spectate: String) -> (r: Secrets)
        ensures
            r == (Secrets { spectate: Some(spectate), ..self }),
    {
        Secrets { spectate: Some(spectate), ..self }
    }

    /// Sets the secret for a specific, instanced match.
    pub fn match_secret(self, match_secret: String) -> (r: Secrets)
        ensures
            r == (Secrets { match_secret: Some(match_secret), ..self }),
    {
        Secrets { match_secret: Some(match_secret), ..self }
    }
}

/// The root activity value, composing every optional sub-value.
#[derive(Clone)]
pub struct Activity {
    /// Current party status, or text for a custom status.
    pub state: Option<String>,
    /// Details about the player in the activity.
    pub details: Option<String>,
    /// Start and end markers of the activity.
    pub timestamps: Option<Timestamps>,
    /// Information about the current party of the player.
    pub party: Option<Party>,
    /// Images for the presence and their hover text.
    pub assets: Option<Assets>,
    /// Secrets associated with the activity.
    pub secrets: Option<Secrets>,
    /// Buttons of the activity; if present, never empty.
    pub buttons: Option<Vec<Button>>,
    /// Kind of the activity; rendered under the key `"type"`.
    pub activity_type: Option<ActivityType>,
}

/// The value that [`Activity::buttons`] returns: an empty list leaves
/// the field as it was, a non-empty list is stored verbatim.
pub open spec fn with_buttons(a: Activity, buttons: Vec<Button>) -> Activity {
    if buttons@.len() == 0 {
        a
    } else {
        Activity { buttons: Some(buttons), ..a }
    }
}

impl Activity {
    /// Creates an `Activity` with every field unset.
    pub fn new() -> (r: Activity)
        ensures
            r.state is None,
            r.details is None,
            r.timestamps is None,
            r.party is None,
            r.assets is None,
            r.secrets is None,
            r.buttons is None,
            r.activity_type is None,
    {
        Activity {
            state: None,
            details: None,
            timestamps: None,
            party: None,
            assets: None,
            secrets: None,
            buttons: None,
            activity_type: None,
        }
    }

    /// Sets the state of the activity.
    pub fn state(self, state: String) -> (r: Activity)
        ensures
            r == (Activity { state: Some(state), ..self }),
    {
        Activity { state: Some(state), ..self }
    }

    /// Sets the details of the activity.
    pub fn details(self, details: String) -> (r: Activity)
        ensures
            r == (Activity { details: Some(details), ..self }),
    {
        Activity { details: Some(details), ..self }
    }

    /// Adds a `Timestamps` to this activity.
    pub fn timestamps(self, timestamps: Timestamps) -> (r: Activity)
        ensures
            r == (Activity { timestamps: Some(timestamps), ..self }),
    {
        Activity { timestamps: Some(timestamps), ..self }
    }

    /// Adds a `Party` to this activity.
    pub fn party(self, party: Party) -> (r: Activity)
        ensures
            r == (Activity { party: Some(party), ..self }),
    {
        Activity { party: Some(party), ..self }
    }

    /// Adds an `Assets` to this activity.
    pub fn assets(self, assets: Assets) -> (r: Activity)
        ensures
            r == (Activity { assets: Some(assets), ..self }),
    {
        Activity { assets: Some(assets), ..self }
    }

    /// Adds a `Secrets` to this activity.
    pub fn secrets(self, secrets: Secrets) -> (r: Activity)
        ensures
            r == (Activity { secrets: Some(secrets), ..self }),
    {
        Activity { secrets: Some(secrets), ..self }
    }

    /// Adds buttons to this activity.
    ///
    /// The remote peer rejects an explicitly empty buttons array, so an
    /// empty list is normalized to "field absent": the activity is
    /// returned unchanged.  A non-empty list is stored verbatim, in the
    /// caller's order.  The documented maximum of two buttons is
    /// advisory and not enforced here.
    pub fn buttons(self, buttons: Vec<Button>) -> (r: Activity)
        ensures
            r == with_buttons(self, buttons),
            buttons@.len() == 0 ==> r == self,
            buttons@.len() > 0 ==> r == (Activity { buttons: Some(buttons), ..self }),
    {
        if buttons.is_empty() {
            return self;
        }
        Activity { buttons: Some(buttons), ..self }
    }

    /// Adds an `ActivityType` to this activity.
    pub fn activity_type(self, activity_type: ActivityType) -> (r: Activity)
        ensures
            r == (Activity { activity_type: Some(activity_type), ..self }),
    {
        Activity { activity_type: Some(activity_type), ..self }
    }
}

} // verus!
