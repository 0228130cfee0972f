use vstd::prelude::*;

use crate::decimal::{decimal, decimal_string, parse_decimal, parse_u64, lemma_parse_decimal_roundtrip};

verus! {

/// What a local notification shows: a title, a body, and the identifier of the category
/// whose actions it offers.
#[derive(Debug, PartialEq, Eq)]
pub struct NotificationContent {
    pub title: String,
    pub body: String,
    pub category_identifier: String,
}

/// The texts of a notification's content.
pub struct ContentView {
    pub title: Seq<char>,
    pub body: Seq<char>,
    pub category_identifier: Seq<char>,
}

impl View for NotificationContent {
    type V = ContentView;

    open spec fn view(&self) -> ContentView {
        ContentView {
            title: self.title@,
            body: self.body@,
            category_identifier: self.category_identifier@,
        }
    }
}

impl NotificationContent {
    /// An independent copy of this content.
    pub fn copy(&self) -> (c: Self)
        ensures
            c@ == self@,
    {
        NotificationContent {
            title: self.title.clone(),
            body: self.body.clone(),
            category_identifier: self.category_identifier.clone(),
        }
    }
}

/// A notification that the game shows; it is scheduled when it appears and withdrawn when
/// it goes away.
#[derive(Debug, PartialEq, Eq)]
pub struct Notification {
    content: NotificationContent,
}

impl View for Notification {
    type V = ContentView;

    closed spec fn view(&self) -> ContentView {
        self.content@
    }
}

impl Notification {
    /// A notification that shows a copy of `content`.
    pub fn new(content: &NotificationContent) -> (n: Self)
        ensures
            n@ == content@,
    {
        Self { content: content.copy() }
    }

    /// What the notification shows.
    pub fn content(&self) -> (c: &NotificationContent)
        ensures
            c@ == self@,
    {
        &self.content
    }
}

/// Why the notification center refused a request.
#[derive(Debug, PartialEq, Eq, Hash)]
pub struct NotificationError {
    pub description: String,
}

/// The answer to a request for permission to show notifications: whether it was granted,
/// or why it could not be asked.
#[derive(Debug, PartialEq, Eq, Hash)]
pub struct NotificationAuthorized {
    pub result: Result<bool, NotificationError>,
}

/// The answer to a request to schedule the notification of an entity.
#[derive(Debug, PartialEq, Eq, Hash)]
pub struct NotificationScheduled {
    pub notification: u64,
    pub result: Result<(), NotificationError>,
}

/// The notification of an entity is about to be shown.
#[derive(Debug, PartialEq, Eq, Hash)]
pub struct NotificationPresented {
    pub notification: u64,
}

/// The user answered the notification of an entity with one of its actions.
#[derive(Debug, PartialEq, Eq, Hash)]
pub struct NotificationResponded {
    pub notification: u64,
    pub action_identifier: String,
}

/// The identifier under which the notification of the entity with these bits is scheduled:
/// the bits in decimal.
pub fn notification_identifier(entity_bits: u64) -> (id: String)
    ensures
        id@ == decimal(entity_bits as nat),
{
    decimal_string(entity_bits)
}

/// The bits of the entity whose notification has this identifier, read as a decimal `u64`;
/// `None` where the identifier is not one.
pub fn notification_entity_bits(identifier: &str) -> (bits: Option<u64>)
    ensures
        bits == parse_u64(identifier@),
{
    parse_decimal(identifier)
}

/// The identifier of an entity's notification leads back to that entity.
pub proof fn lemma_identifier_roundtrip(entity_bits: u64)
    ensures
        parse_u64(decimal(entity_bits as nat)) == Some(entity_bits),
{
    lemma_parse_decimal_roundtrip(entity_bits);
}

/// Two entities never share an identifier.
pub proof fn lemma_identifiers_distinct(a: u64, b: u64)
    requires
        a != b,
    ensures
        decimal(a as nat) != decimal(b as nat),
{
    lemma_parse_decimal_roundtrip(a);
    lemma_parse_decimal_roundtrip(b);
}

} // verus!
