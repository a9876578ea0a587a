//! Types returned from the `/sync` endpoint.

use vstd::prelude::*;
use vstd::string::*;
use crate::codec::{defaulted, defaulted_spec, empty_list, required, required_spec, FromJson};
use crate::dict::Dict;
use crate::json::{Json, JsonView};
use crate::types::events::{Event, EventView, Events, EventsView};
use crate::types::room::Room;

verus! {

/// Counts of unread notifications for a room.
#[derive(Debug, PartialEq)]
pub struct UnreadNotificationCounts {
    /// The number of unread notifications for this room with the highlight flag set.
    pub highlight_count: u32,
    /// The total number of unread notifications for this room.
    pub notification_count: u32,
}

/// The mathematical value of [`UnreadNotificationCounts`].
pub ghost struct UnreadNotificationCountsView {
    pub highlight_count: u32,
    pub notification_count: u32,
}

impl DeepView for UnreadNotificationCounts {
    type V = UnreadNotificationCountsView;

    open spec fn deep_view(&self) -> UnreadNotificationCountsView {
        UnreadNotificationCountsView {
            highlight_count: self.highlight_count.deep_view(),
            notification_count: self.notification_count.deep_view(),
        }
    }
}

impl UnreadNotificationCountsView {
    /// No unread notifications.
    pub open spec fn none() -> UnreadNotificationCountsView {
        UnreadNotificationCountsView { highlight_count: 0, notification_count: 0 }
    }
}

impl UnreadNotificationCounts {
    /// No unread notifications.
    pub fn new() -> (r: UnreadNotificationCounts)
        ensures
            r.deep_view() == UnreadNotificationCountsView::none(),
    {
        UnreadNotificationCounts { highlight_count: 0, notification_count: 0 }
    }
}

impl FromJson for UnreadNotificationCounts {
    open spec fn decoded(j: JsonView) -> Option<UnreadNotificationCountsView> {
        if j is Object {
            match (
                required_spec::<u32>(j, "highlight_count"@),
                required_spec::<u32>(j, "notification_count"@),
            ) {
                (Some(highlight_count), Some(notification_count)) => Some(
                    UnreadNotificationCountsView { highlight_count, notification_count },
                ),
                _ => None,
            }
        } else {
            None
        }
    }

    fn from_json(j: &Json) -> (r: Option<UnreadNotificationCounts>) {
        if !j.is_object() {
            return None;
        }
        let highlight_count = match required::<u32>(j, "highlight_count") {
            Some(x) => x,
            None => {
                return None;
            },
        };
        let notification_count = match required::<u32>(j, "notification_count") {
            Some(x) => x,
            None => {
                return None;
            },
        };
        Some(UnreadNotificationCounts { highlight_count, notification_count })
    }
}

/// A timeline of messages and state changes in a room.
#[derive(Debug, PartialEq)]
pub struct Timeline {
    /// List of events.
    pub events: Vec<Event>,
    /// A token that can be supplied as the `from` parameter of the
    /// `/rooms/{roomId}/messages` endpoint.
    pub prev_batch: String,
    /// True if the number of events returned was limited by the `limit` on the
    /// filter.
    pub limited: bool,
}

/// The mathematical value of [`Timeline`].
pub ghost struct TimelineView {
    pub events: Seq<EventView>,
    pub prev_batch: Seq<char>,
    pub limited: bool,
}

impl DeepView for Timeline {
    type V = TimelineView;

    open spec fn deep_view(&self) -> TimelineView {
        TimelineView {
            events: self.events.deep_view(),
            prev_batch: self.prev_batch.deep_view(),
            limited: self.limited.deep_view(),
        }
    }
}

impl FromJson for Timeline {
    open spec fn decoded(j: JsonView) -> Option<TimelineView> {
        if j is Object {
            match (
                defaulted_spec::<Vec<Event>>(j, "events"@, Seq::empty()),
                required_spec::<String>(j, "prev_batch"@),
                defaulted_spec::<bool>(j, "limited"@, false),
            ) {
                (Some(events), Some(prev_batch), Some(limited)) => Some(
                    TimelineView { events, prev_batch, limited },
                ),
                _ => None,
            }
        } else {
            None
        }
    }

    fn from_json(j: &Json) -> (r: Option<Timeline>) {
        if !j.is_object() {
            return None;
        }
        let events = match defaulted::<Vec<Event>>(j, "events", empty_list()) {
            Some(x) => x,
            None => {
                return None;
            },
        };
        let prev_batch = match required::<String>(j, "prev_batch") {
            Some(x) => x,
            None => {
                return None;
            },
        };
        let limited = match defaulted::<bool>(j, "limited", false) {
            Some(x) => x,
            None => {
                return None;
            },
        };
        Some(Timeline { events, prev_batch, limited })
    }
}

/// Information about a room the user has joined.
#[derive(Debug, PartialEq)]
pub struct JoinedRoom {
    /// Updates to the state, between the time indicated by the `since`
    /// parameter, and the start of the `timeline` (or all state up to the start
    /// of the `timeline`, if `since` is not given, or `full_state` is true).
    pub state: Events,
    /// The timeline of messages and state changes in the room.
    pub timeline: Timeline,
    /// The ephemeral events in the room that aren't recorded in the timeline or
    /// state of the room. e.g. typing.
    pub ephemeral: Events,
    /// The private data that this user has attached to this room.
    pub account_data: Events,
    /// Counts of unread notifications for this room.
    pub unread_notifications: UnreadNotificationCounts,
}

/// The mathematical value of [`JoinedRoom`].
pub ghost struct JoinedRoomView {
    pub state: EventsView,
    pub timeline: TimelineView,
    pub ephemeral: EventsView,
    pub account_data: EventsView,
    pub unread_notifications: UnreadNotificationCountsView,
}

impl DeepView for JoinedRoom {
    type V = JoinedRoomView;

    open spec fn deep_view(&self) -> JoinedRoomView {
        JoinedRoomView {
            state: self.state.deep_view(),
            timeline: self.timeline.deep_view(),
            ephemeral: self.ephemeral.deep_view(),
            account_data: self.account_data.deep_view(),
            unread_notifications: self.unread_notifications.deep_view(),
        }
    }
}

impl FromJson for JoinedRoom {
    open spec fn decoded(j: JsonView) -> Option<JoinedRoomView> {
        if j is Object {
            match (
                defaulted_spec::<Events>(j, "state"@, EventsView::empty()),
                required_spec::<Timeline>(j, "timeline"@),
                defaulted_spec::<Events>(j, "ephemeral"@, EventsView::empty()),
                defaulted_spec::<Events>(j, "account_data"@, EventsView::empty()),
                defaulted_spec::<UnreadNotificationCounts>(
                    j,
                    "unread_notifications"@,
                    UnreadNotificationCountsView::none(),
                ),
            ) {
                (
                    Some(state),
                    Some(timeline),
                    Some(ephemeral),
                    Some(account_data),
                    Some(unread_notifications),
                ) => Some(
                    JoinedRoomView {
                        state,
                        timeline,
                        ephemeral,
                        account_data,
                        unread_notifications,
                    },
                ),
                _ => None,
            }
        } else {
            None
        }
    }

    fn from_json(j: &Json) -> (r: Option<JoinedRoom>) {
        if !j.is_object() {
            return None;
        }
        let state = match defaulted::<Events>(j, "state", Events::new()) {
            Some(x) => x,
            None => {
                return None;
            },
        };
        let timeline = match required::<Timeline>(j, "timeline") {
            Some(x) => x,
            None => {
                return None;
            },
        };
        let ephemeral = match defaulted::<Events>(j, "ephemeral", Events::new()) {
            Some(x) => x,
            None => {
                return None;
            },
        };
        let account_data = match defaulted::<Events>(j, "account_data", Events::new()) {
            Some(x) => x,
            None => {
                return None;
            },
        };
        let unread_notifications = match defaulted::<UnreadNotificationCounts>(
            j,
            "unread_notifications",
            UnreadNotificationCounts::new(),
        ) {
            Some(x) => x,
            None => {
                return None;
            },
        };
        Some(JoinedRoom { state, timeline, ephemeral, account_data, unread_notifications })
    }
}

/// Information about a room the user has left, or been banned from.
#[derive(Debug, PartialEq)]
pub struct LeftRoom {
    /// The state updates for the room up to the start of the timeline.
    pub state: Events,
    /// The timeline of messages and state changes in the room up to the point
    /// when the user left.
    pub timeline: Timeline,
}

/// The mathematical value of [`LeftRoom`].
pub ghost struct LeftRoomView {
    pub state: EventsView,
    pub timeline: TimelineView,
}

impl DeepView for LeftRoom {
    type V = LeftRoomView;

    open spec fn deep_view(&self) -> LeftRoomView {
        LeftRoomView {
            state: self.state.deep_view(),
            timeline: self.timeline.deep_view(),
        }
    }
}

impl FromJson for LeftRoom {
    open spec fn decoded(j: JsonView) -> Option<LeftRoomView> {
        if j is Object {
            match (
                defaulted_spec::<Events>(j, "state"@, EventsView::empty()),
                required_spec::<Timeline>(j, "timeline"@),
            ) {
                (Some(state), Some(timeline)) => Some(
                    LeftRoomView { state, timeline },
                ),
                _ => None,
            }
        } else {
            None
        }
    }

    fn from_json(j: &Json) -> (r: Option<LeftRoom>) {
        if !j.is_object() {
            return None;
        }
        let state = match defaulted::<Events>(j, "state", Events::new()) {
            Some(x) => x,
            None => {
                return None;
            },
        };
        let timeline = match required::<Timeline>(j, "timeline") {
            Some(x) => x,
            None => {
                return None;
            },
        };
        Some(LeftRoom { state, timeline })
    }
}

/// Information about a room the user has been invited to.
#[derive(Debug, PartialEq)]
pub struct InvitedRoom {
    /// The state of a room that the user has been invited to.
    ///
    /// These state events may only have the `sender`, `type`, `state_key` and
    /// `content` keys present.
    pub invite_state: Events,
}

/// The mathematical value of [`InvitedRoom`].
pub ghost struct InvitedRoomView {
    pub invite_state: EventsView,
}

impl DeepView for InvitedRoom {
    type V = InvitedRoomView;

    open spec fn deep_view(&self) -> InvitedRoomView {
        InvitedRoomView {
            invite_state: self.invite_state.deep_view(),
        }
    }
}

impl FromJson for InvitedRoom {
    open spec fn decoded(j: JsonView) -> Option<InvitedRoomView> {
        if j is Object {
            match defaulted_spec::<Events>(j, "invite_state"@, EventsView::empty()) {
                Some(invite_state) => Some(InvitedRoomView { invite_state }),
                None => None,
            }
        } else {
            None
        }
    }

    fn from_json(j: &Json) -> (r: Option<InvitedRoom>) {
        if !j.is_object() {
            return None;
        }
        let invite_state = match defaulted::<Events>(j, "invite_state", Events::new()) {
            Some(x) => x,
            None => {
                return None;
            },
        };
        Some(InvitedRoom { invite_state })
    }
}

/// The `rooms` component of a `SyncReply`.
#[derive(Debug, PartialEq)]
pub struct SyncRooms {
    /// The rooms that the user has joined, by room ID.
    pub join: Dict<JoinedRoom>,
    /// The rooms that the user has been invited to, by room ID.
    pub invite: Dict<InvitedRoom>,
    /// The rooms that the user has left, or been banned from, by room ID.
    pub leave: Dict<LeftRoom>,
}

/// The mathematical value of [`SyncRooms`].
pub ghost struct SyncRoomsView {
    pub join: Seq<(Seq<char>, JoinedRoomView)>,
    pub invite: Seq<(Seq<char>, InvitedRoomView)>,
    pub leave: Seq<(Seq<char>, LeftRoomView)>,
}

impl DeepView for SyncRooms {
    type V = SyncRoomsView;

    open spec fn deep_view(&self) -> SyncRoomsView {
        SyncRoomsView {
            join: self.join.deep_view(),
            invite: self.invite.deep_view(),
            leave: self.leave.deep_view(),
        }
    }
}

impl FromJson for SyncRooms {
    open spec fn decoded(j: JsonView) -> Option<SyncRoomsView> {
        if j is Object {
            match (
                defaulted_spec::<Dict<JoinedRoom>>(j, "join"@, Seq::empty()),
                defaulted_spec::<Dict<InvitedRoom>>(j, "invite"@, Seq::empty()),
                defaulted_spec::<Dict<LeftRoom>>(j, "leave"@, Seq::empty()),
            ) {
                (Some(join), Some(invite), Some(leave)) => Some(
                    SyncRoomsView { join, invite, leave },
                ),
                _ => None,
            }
        } else {
            None
        }
    }

    fn from_json(j: &Json) -> (r: Option<SyncRooms>) {
        if !j.is_object() {
            return None;
        }
        let join = match defaulted::<Dict<JoinedRoom>>(j, "join", Dict::new()) {
            Some(x) => x,
            None => {
                return None;
            },
        };
        let invite = match defaulted::<Dict<InvitedRoom>>(j, "invite", Dict::new()) {
            Some(x) => x,
            None => {
                return None;
            },
        };
        let leave = match defaulted::<Dict<LeftRoom>>(j, "leave", Dict::new()) {
            Some(x) => x,
            None => {
                return None;
            },
        };
        Some(SyncRooms { join, invite, leave })
    }
}

/// The reply obtained from `/sync`.
#[derive(Debug, PartialEq)]
pub struct SyncReply {
    /// The batch token to supply in the `since` param of the next `/sync`
    /// request.
    pub next_batch: String,
    /// Updates to rooms.
    pub rooms: SyncRooms,
    /// The global private data created by this user.
    pub account_data: Events,
    /// The updates to the presence status of other users.
    pub presence: Events,
}

/// The mathematical value of [`SyncReply`].
pub ghost struct SyncReplyView {
    pub next_batch: Seq<char>,
    pub rooms: SyncRoomsView,
    pub account_data: EventsView,
    pub presence: EventsView,
}

impl DeepView for SyncReply {
    type V = SyncReplyView;

    open spec fn deep_view(&self) -> SyncReplyView {
        SyncReplyView {
            next_batch: self.next_batch.deep_view(),
            rooms: self.rooms.deep_view(),
            account_data: self.account_data.deep_view(),
            presence: self.presence.deep_view(),
        }
    }
}

impl FromJson for SyncReply {
    open spec fn decoded(j: JsonView) -> Option<SyncReplyView> {
        if j is Object {
            match (
                required_spec::<String>(j, "next_batch"@),
                required_spec::<SyncRooms>(j, "rooms"@),
                defaulted_spec::<Events>(j, "account_data"@, EventsView::empty()),
                defaulted_spec::<Events>(j, "presence"@, EventsView::empty()),
            ) {
                (Some(next_batch), Some(rooms), Some(account_data), Some(presence)) => Some(
                    SyncReplyView { next_batch, rooms, account_data, presence },
                ),
                _ => None,
            }
        } else {
            None
        }
    }

    fn from_json(j: &Json) -> (r: Option<SyncReply>) {
        if !j.is_object() {
            return None;
        }
        let next_batch = match required::<String>(j, "next_batch") {
            Some(x) => x,
            None => {
                return None;
            },
        };
        let rooms = match required::<SyncRooms>(j, "rooms") {
            Some(x) => x,
            None => {
                return None;
            },
        };
        let account_data = match defaulted::<Events>(j, "account_data", Events::new()) {
            Some(x) => x,
            None => {
                return None;
            },
        };
        let presence = match defaulted::<Events>(j, "presence", Events::new()) {
            Some(x) => x,
            None => {
                return None;
            },
        };
        Some(SyncReply { next_batch, rooms, account_data, presence })
    }
}

/// The events of the timelines of the joined rooms, each with the ID of its room, from the
/// event at `event` of the room at `room` on: room by room, and within a room in the
/// timeline's order.
pub open spec fn timeline_events_from(
    join: Seq<(Seq<char>, JoinedRoomView)>,
    room: int,
    event: int,
) -> Seq<(Seq<char>, EventView)>
    decreases join.len() - room, timeline_left(join, room, event),
{
    if room < 0 || room >= join.len() || event < 0 {
        Seq::empty()
    } else if event < join[room].1.timeline.events.len() {
        seq![(join[room].0, join[room].1.timeline.events[event])] + timeline_events_from(
            join,
            room,
            event + 1,
        )
    } else {
        timeline_events_from(join, room + 1, 0)
    }
}

/// The number of events that the timeline of the room at `room` holds from `event` on.
pub open spec fn timeline_left(join: Seq<(Seq<char>, JoinedRoomView)>, room: int, event: int) -> int {
    if 0 <= room < join.len() {
        join[room].1.timeline.events.len() - event
    } else {
        0
    }
}

impl SyncReply {
    /// The events of the timelines of the joined rooms, each with the ID of its room.
    pub open spec fn timeline_events(v: SyncReplyView) -> Seq<(Seq<char>, EventView)> {
        timeline_events_from(v.rooms.join, 0, 0)
    }

    /// Iterate over events in this reply.
    pub fn iter_events(&self) -> (r: SyncEventIter<'_>)
        ensures
            r.remaining() == SyncReply::timeline_events(self.deep_view()),
    {
        SyncEventIter { reply: self, room: 0, event: 0 }
    }
}

/// Iterator over events in a `/sync` reply.
pub struct SyncEventIter<'a> {
    reply: &'a SyncReply,
    room: usize,
    event: usize,
}

impl<'a> SyncEventIter<'a> {
    /// The events that are still to come, each with the ID of its room.
    pub closed spec fn remaining(&self) -> Seq<(Seq<char>, EventView)> {
        timeline_events_from(self.reply.deep_view().rooms.join, self.room as int, self.event as int)
    }

    /// The next event and the room it belongs to, or `None` when all were handed out.
    pub fn next(&mut self) -> (r: Option<(Room, &'a Event)>)
        ensures
            match r {
                Some((room, event)) => old(self).remaining().len() > 0 && (
                    room.deep_view(),
                    event.deep_view(),
                ) == old(self).remaining()[0] && final(self).remaining() == old(self).remaining().skip(1),
                None => old(self).remaining().len() == 0 && final(self).remaining().len() == 0,
            },
    {
        let reply: &'a SyncReply = self.reply;
        let ghost join = reply.deep_view().rooms.join;
        loop
            invariant
                self.reply == reply,
                join == reply.deep_view().rooms.join,
                self.remaining() == old(self).remaining(),
            decreases join.len() - self.room, timeline_left(join, self.room as int, self.event as int),
        {
            if self.room >= reply.rooms.join.len() {
                return None;
            }
            let joined = reply.rooms.join.value_at(self.room);
            if self.event < joined.timeline.events.len() {
                let event = &joined.timeline.events[self.event];
                let room = Room { id: reply.rooms.join.key_at(self.room).clone() };
                let ghost before = self.remaining();
                self.event = self.event + 1;
                assert(before.skip(1) =~= self.remaining());
                return Some((room, event));
            }
            self.room = self.room + 1;
            self.event = 0;
        }
    }
}

} // verus!
