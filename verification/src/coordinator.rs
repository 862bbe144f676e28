//! The state coordinator: the core state machine of the device.
//!
//! Driven by an ordered stream of [`Event`]s, it discovers the bench
//! identifier assigned to the device, keeps two subscriptions derived from
//! that identifier, deduplicates repeated payloads, and decides exactly
//! when the screen must be redrawn. Every effect it wants is returned as a
//! sequence of [`Command`]s; it performs none itself.
//!
//! The whole behaviour is captured by the transition function
//! [`spec_step`]; the executable [`Coordinator::step`] returns exactly what
//! the transition function says, one event at a time.

use vstd::prelude::*;

use crate::commands::{Command, CommandModel};
use crate::device::spec_hex_encode;
use crate::events::{Event, EventModel};
use crate::topics::{
    bench_topic, description_topic, ip_topic, software_topic, spec_bench_topic,
    spec_description_topic, spec_ip_topic, spec_software_topic,
};

verus! {

/// Mathematical image of the coordinator state.
///
/// `bench_topic`, `ip_topic` and `ip` are fixed for one session; the five
/// optional fields evolve with the event stream.
#[verifier::ext_equal]
pub struct CoordinatorModel {
    /// Bootstrap channel announcing the bench identity.
    pub bench_topic: Seq<char>,
    /// Channel on which the device's network address is published.
    pub ip_topic: Seq<char>,
    /// Dotted textual form of the device's network address.
    pub ip: Seq<char>,
    /// Currently bound bench identifier, if one arrived yet.
    pub bench: Option<Seq<char>>,
    /// Last stored description payload for the current bench.
    pub description: Option<Seq<char>>,
    /// Last stored software-version payload for the current bench.
    pub software: Option<Seq<char>>,
    /// Channel of the active description binding.
    pub description_topic: Option<Seq<char>>,
    /// Channel of the active software binding.
    pub software_topic: Option<Seq<char>>,
}

impl CoordinatorModel {
    /// Well-formedness: bindings exist exactly while a bench is bound, and
    /// are always derived from the current bench identifier.
    pub open spec fn wf(self) -> bool {
        &&& (self.bench is Some <==> self.description_topic is Some)
        &&& (self.bench is Some <==> self.software_topic is Some)
        &&& (self.bench is Some ==> self.description_topic == Some(
            spec_description_topic(self.bench.unwrap()),
        ))
        &&& (self.bench is Some ==> self.software_topic == Some(
            spec_software_topic(self.bench.unwrap()),
        ))
        &&& (self.description is Some ==> self.bench is Some)
        &&& (self.software is Some ==> self.bench is Some)
    }

    /// All three display fields carry a value.
    pub open spec fn complete(self) -> bool {
        self.bench is Some && self.software is Some && self.description is Some
    }
}

/// The state a session starts in: channels derived from the device serial,
/// no bench bound, no field set.
pub open spec fn spec_init(serial: Seq<char>, ip: Seq<char>) -> CoordinatorModel {
    CoordinatorModel {
        bench_topic: spec_bench_topic(serial),
        ip_topic: spec_ip_topic(serial),
        ip: ip,
        bench: None,
        description: None,
        software: None,
        description_topic: None,
        software_topic: None,
    }
}

/// The redraw decision: after a display field changed, a render of the
/// complete triple is ordered exactly when all three fields are set.
pub open spec fn spec_render_cmds(s: CoordinatorModel) -> Seq<CommandModel> {
    if s.complete() {
        seq![
            CommandModel::Render {
                bench: s.bench.unwrap(),
                software: s.software.unwrap(),
                description: s.description.unwrap(),
            },
        ]
    } else {
        Seq::empty()
    }
}

/// Rebinding to bench `id`: tear down the active bindings (unsubscribes
/// strictly first), clear both dependent fields, then subscribe to the two
/// channels derived from `id` and record them as active.
pub open spec fn spec_rebind(s: CoordinatorModel, id: Seq<char>) -> (CoordinatorModel, Seq<
    CommandModel,
>) {
    let unsubs = (match s.description_topic {
        Some(t) => seq![CommandModel::Unsubscribe(t)],
        None => Seq::empty(),
    }) + (match s.software_topic {
        Some(t) => seq![CommandModel::Unsubscribe(t)],
        None => Seq::empty(),
    });
    let s2 = CoordinatorModel {
        bench: Some(id),
        description: None,
        software: None,
        description_topic: Some(spec_description_topic(id)),
        software_topic: Some(spec_software_topic(id)),
        ..s
    };
    (
        s2,
        unsubs + seq![
            CommandModel::Subscribe(spec_description_topic(id)),
            CommandModel::Subscribe(spec_software_topic(id)),
        ],
    )
}

/// The transition function: next state and ordered commands for one event.
///
/// - `Connected`: subscribe to the bootstrap channel and publish the
///   device address, retained; the state is unchanged.
/// - A message on the bootstrap channel: discarded when it repeats the
///   bound bench, otherwise a full rebind.
/// - A message on an active binding: discarded when it repeats the stored
///   value, otherwise stored, with a render ordered when the triple is
///   complete.
/// - Anything else: discarded without a state change.
pub open spec fn spec_step(s: CoordinatorModel, e: EventModel) -> (CoordinatorModel, Seq<
    CommandModel,
>) {
    match e {
        EventModel::Connected => (
            s,
            seq![
                CommandModel::Subscribe(s.bench_topic),
                CommandModel::Publish { topic: s.ip_topic, payload: s.ip, retained: true },
            ],
        ),
        EventModel::Received(topic, payload) => {
            if topic == s.bench_topic {
                if s.bench == Some(payload) {
                    (s, Seq::empty())
                } else {
                    spec_rebind(s, payload)
                }
            } else if s.description_topic == Some(topic) {
                if s.description == Some(payload) {
                    (s, Seq::empty())
                } else {
                    let s2 = CoordinatorModel { description: Some(payload), ..s };
                    (s2, spec_render_cmds(s2))
                }
            } else if s.software_topic == Some(topic) {
                if s.software == Some(payload) {
                    (s, Seq::empty())
                } else {
                    let s2 = CoordinatorModel { software: Some(payload), ..s };
                    (s2, spec_render_cmds(s2))
                }
            } else {
                (s, Seq::empty())
            }
        },
    }
}

/// The state coordinator. Owns the bench identity, the two active bindings
/// and the three display fields; [`Coordinator::step`] consumes one event
/// and returns the commands it calls for.
pub struct Coordinator {
    bench_topic: String,
    ip_topic: String,
    ip: String,
    bench: Option<String>,
    description: Option<String>,
    software: Option<String>,
    description_topic: Option<String>,
    software_topic: Option<String>,
}

impl View for Coordinator {
    type V = CoordinatorModel;

    closed spec fn view(&self) -> CoordinatorModel {
        CoordinatorModel {
            bench_topic: self.bench_topic@,
            ip_topic: self.ip_topic@,
            ip: self.ip@,
            bench: self.bench.deep_view(),
            description: self.description.deep_view(),
            software: self.software.deep_view(),
            description_topic: self.description_topic.deep_view(),
            software_topic: self.software_topic.deep_view(),
        }
    }
}

impl Coordinator {
    /// A fresh coordinator for one session, before any event arrived.
    /// `serial` is the device's hardware address in textual form; `ip` the
    /// dotted form of its network address.
    pub fn new(serial: &str, ip: &str) -> (c: Coordinator)
        ensures
            c@ == spec_init(serial@, ip@),
            c@.wf(),
    {
        Coordinator {
            bench_topic: bench_topic(serial),
            ip_topic: ip_topic(serial),
            ip: String::from_str(ip),
            bench: None,
            description: None,
            software: None,
            description_topic: None,
            software_topic: None,
        }
    }

    /// A fresh coordinator for the device with the given raw hardware
    /// address: the serial is its lowercase hexadecimal form.
    pub fn for_device(mac: &[u8], ip: &str) -> (c: Coordinator)
        ensures
            c@ == spec_init(spec_hex_encode(mac@), ip@),
            c@.wf(),
    {
        let serial = crate::device::hex_encode(mac);
        Coordinator::new(serial.as_str(), ip)
    }

    /// Consumes one event and returns the commands to carry out, in order.
    /// The new state and the commands are exactly those of [`spec_step`].
    pub fn step(&mut self, event: Event) -> (cmds: Vec<Command>)
        requires
            old(self)@.wf(),
        ensures
            final(self)@ == spec_step(old(self)@, event@).0,
            cmds.deep_view() == spec_step(old(self)@, event@).1,
            final(self)@.wf(),
    {
        let mut cmds: Vec<Command> = Vec::new();
        match event {
            Event::Connected => {
                cmds.push(Command::Subscribe(self.bench_topic.clone()));
                cmds.push(
                    Command::Publish {
                        topic: self.ip_topic.clone(),
                        payload: self.ip.clone(),
                        retained: true,
                    },
                );
                assert(cmds.deep_view() =~= spec_step(old(self)@, event@).1);
            },
            Event::Received(topic, payload) => {
                if topic == self.bench_topic {
                    let repeated = match &self.bench {
                        Some(b) => *b == payload,
                        None => false,
                    };
                    if repeated {
                        assert(cmds.deep_view() =~= spec_step(old(self)@, event@).1);
                    } else {
                        if let Some(t) = &self.description_topic {
                            cmds.push(Command::Unsubscribe(t.clone()));
                        }
                        if let Some(t) = &self.software_topic {
                            cmds.push(Command::Unsubscribe(t.clone()));
                        }
                        self.description = None;
                        self.software = None;
                        let new_description_topic = description_topic(payload.as_str());
                        cmds.push(Command::Subscribe(new_description_topic.clone()));
                        self.description_topic = Some(new_description_topic);
                        let new_software_topic = software_topic(payload.as_str());
                        cmds.push(Command::Subscribe(new_software_topic.clone()));
                        self.software_topic = Some(new_software_topic);
                        self.bench = Some(payload);
                        assert(cmds.deep_view() =~= spec_step(old(self)@, event@).1);
                    }
                } else {
                    let on_description = match &self.description_topic {
                        Some(t) => *t == topic,
                        None => false,
                    };
                    let on_software = !on_description && match &self.software_topic {
                        Some(t) => *t == topic,
                        None => false,
                    };
                    if on_description {
                        let repeated = match &self.description {
                            Some(d) => *d == payload,
                            None => false,
                        };
                        if !repeated {
                            self.description = Some(payload);
                            self.push_render_if_complete(&mut cmds);
                        }
                    } else if on_software {
                        let repeated = match &self.software {
                            Some(v) => *v == payload,
                            None => false,
                        };
                        if !repeated {
                            self.software = Some(payload);
                            self.push_render_if_complete(&mut cmds);
                        }
                    }
                    assert(cmds.deep_view() =~= spec_step(old(self)@, event@).1);
                }
            },
        }
        cmds
    }

    /// Orders a redraw of the current triple when all three fields are set.
    fn push_render_if_complete(&self, cmds: &mut Vec<Command>)
        ensures
            final(cmds).deep_view() == old(cmds).deep_view() + spec_render_cmds(self@),
    {
        if let (Some(b), Some(v), Some(d)) = (&self.bench, &self.software, &self.description) {
            cmds.push(
                Command::Render {
                    bench: b.clone(),
                    software: v.clone(),
                    description: d.clone(),
                },
            );
        }
        assert(cmds.deep_view() =~= old(cmds).deep_view() + spec_render_cmds(self@));
    }
}

} // verus!
