//! The records the engine reads and writes: inbound webhook events, the
//! envelopes of the two entry points, outbound messages and list choices.

use vstd::prelude::*;

verus! {

/// A webhook delivery from the messaging provider.
pub struct Event {
    pub object: String,
    pub entry: Vec<Entry>,
}

pub struct Entry {
    pub id: String,
    pub changes: Vec<Change>,
}

pub struct Change {
    pub field: String,
    pub value: ChangeValue,
}

pub struct ChangeValue {
    pub messaging_product: String,
    pub metadata: ChangeMetadata,
    pub contacts: Option<Vec<Contact>>,
    pub messages: Option<Vec<Message>>,
    pub statuses: Option<Vec<Status>>,
}

pub struct Status {
    pub id: String,
    pub status: String,
    pub timestamp: String,
    pub recipient_id: String,
    pub conversation: Option<Conversation>,
}

pub struct Conversation {
    pub id: String,
    pub origin: Origin,
}

pub struct Origin {
    pub origin_type: String,
}

pub struct ChangeMetadata {
    pub display_phone_number: String,
    pub phone_number_id: String,
}

pub struct Contact {
    pub profile: Profile,
    pub wa_id: String,
}

pub struct Profile {
    pub name: String,
}

/// One user message inside a webhook delivery.
pub struct Message {
    pub context: Option<Context>,
    pub from: String,
    pub id: String,
    pub timestamp: String,
    pub message_type: String,
    pub image: Option<Image>,
    pub text: Option<Text>,
    pub button: Option<Button>,
    pub interactive: Option<Interactive>,
}

pub struct Image {
    pub caption: String,
    pub mime_type: String,
    pub sha256: String,
    pub id: String,
}

pub struct Interactive {
    pub interactive_type: String,
    pub list_reply: Option<ListReply>,
    pub button_reply: Option<ListReply>,
}

pub struct ListReply {
    pub id: String,
    pub title: String,
}

pub struct Button {
    pub payload: String,
    pub text: String,
}

pub struct Context {
    pub from: String,
    pub id: String,
}

pub struct Text {
    pub body: String,
}

/// What the provider tells about an uploaded media item.
pub struct MediaData {
    pub url: String,
    pub mime_type: String,
    pub sha256: String,
    pub file_size: i32,
    pub id: String,
    pub messaging_product: String,
}

/// One selectable row of a list message.
pub struct ListChoice {
    pub title: String,
    pub id: String,
}

impl ListChoice {
    /// A choice with an empty title and id.
    pub fn new() -> (r: ListChoice)
        ensures
            r.title@ == Seq::<char>::empty(),
            r.id@ == Seq::<char>::empty(),
    {
        ListChoice { id: String::new(), title: String::new() }
    }

    /// Sets the title.
    pub fn title(&mut self, title: &str) -> (r: &mut Self)
        ensures
            r.title@ == title@,
            r.id == old(self).id,
            *final(self) == *final(r),
    {
        self.title = String::from_str(title);
        self
    }

    /// Sets the id.
    pub fn id(&mut self, id: &str) -> (r: &mut Self)
        ensures
            r.id@ == id@,
            r.title == old(self).title,
            *final(self) == *final(r),
    {
        self.id = String::from_str(id);
        self
    }
}

/// The envelope of both entry points. `origin_system` tells a conversation
/// started by the platform from a continuation the engine sent itself.
pub struct MessageLog {
    pub timestamp: String,
    pub destination_systems: Vec<String>,
    pub origin_system: String,
    pub phone_number: String,
    pub origin: String,
    pub register_id: String,
}

/// A record that an entry point wrote, by the system that holds it.
pub struct ModifiedReference {
    pub system: String,
    pub reference: String,
}

/// The answer of both entry points; `errors` is absent on success.
pub struct StandardResponse {
    pub references: Vec<ModifiedReference>,
    pub errors: Option<Vec<String>>,
}

impl StandardResponse {
    /// A response with no references and no errors.
    pub fn new() -> (r: StandardResponse)
        ensures
            r.references@.len() == 0,
            r.errors is None,
    {
        StandardResponse { references: Vec::new(), errors: None }
    }
}

/// A set of buttons offered to the user.
pub struct ButtonMessage {
    pub title: String,
    pub choices: Vec<String>,
}

/// A list offered to the user.
pub struct ListMessage {
    pub title: String,
    pub choices: Vec<ListChoice>,
}

/// What an outbound message carries.
pub struct MessageContent {
    pub body: Option<String>,
    pub list: Option<ListMessage>,
    pub buttons: Option<ButtonMessage>,
}

/// A message for the outbound sender.
pub struct MessageRequest {
    pub system_id: u8,
    pub to: Vec<String>,
    pub message_type: String,
    pub content: MessageContent,
}

/// The query parameter that names a tracker.
pub struct TrackerParam {
    pub tracker_id: String,
}

} // verus!
