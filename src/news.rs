use vstd::prelude::*;

verus! {

/// What the player is told when a control measure is applied or removed.
pub struct ControlNews {
    pub apply: String,
    pub remove: String,
}

/// What the player is told about an event at each step.
pub struct EventNews {
    pub announcement: String,
    pub accept: String,
    pub reject: String,
    pub postpone: String,
}

/// The description of a control measure or an event, as a game level
/// defines it.
pub enum Read {
    ControlNews(ControlNews),
    EventNews(EventNews),
}

/// The ways a player can resolve an event, and asking for one.
#[derive(Clone, Copy, Debug, PartialEq, Eq, Structural)]
pub enum EventAction {
    Request,
    Accept,
    Decline,
    Postpone,
}

#[derive(Clone, Copy, Debug, PartialEq, Eq, Structural)]
pub enum ControlMeasureAction {
    Apply,
    Remove,
}

pub open spec fn control_text(news: Option<Read>, action: ControlMeasureAction) -> Seq<char> {
    match news {
        Some(Read::ControlNews(n)) => match action {
            ControlMeasureAction::Apply => n.apply@,
            ControlMeasureAction::Remove => n.remove@,
        },
        _ => "Invalid control measure"@,
    }
}

/// The message for `action` on a control measure described by `news`.
pub fn control_message(news: &Option<Read>, action: ControlMeasureAction) -> (r: String)
    ensures
        r@ == control_text(*news, action),
{
    match news {
        Some(Read::ControlNews(n)) => match action {
            ControlMeasureAction::Apply => n.apply.clone(),
            ControlMeasureAction::Remove => n.remove.clone(),
        },
        _ => "Invalid control measure".to_owned(),
    }
}

pub open spec fn event_text(news: Option<Read>, action: EventAction) -> Seq<char> {
    match news {
        Some(Read::EventNews(n)) => match action {
            EventAction::Request => n.announcement@,
            EventAction::Accept => n.accept@,
            EventAction::Decline => n.reject@,
            EventAction::Postpone => n.postpone@,
        },
        _ => "Invalid Event"@,
    }
}

/// The message for `action` on an event described by `news`.
pub fn event_message(news: &Option<Read>, action: EventAction) -> (r: String)
    ensures
        r@ == event_text(*news, action),
{
    match news {
        Some(Read::EventNews(n)) => match action {
            EventAction::Request => n.announcement.clone(),
            EventAction::Accept => n.accept.clone(),
            EventAction::Decline => n.reject.clone(),
            EventAction::Postpone => n.postpone.clone(),
        },
        _ => "Invalid Event".to_owned(),
    }
}

} // verus!
