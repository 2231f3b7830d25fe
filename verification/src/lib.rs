//! Verified core of a Windows telemetry toolkit: a sound-event recorder,
//! event-record builders for ETW / WMI / event-log data, and small parsers.

pub mod text;
pub mod detector;
pub mod netaddr;
pub mod listing;
pub mod etwdesc;
pub mod timefmt;
pub mod sqldump;
pub mod etw_templates;
pub mod tcpip_templates;
pub mod ring;
pub mod recorder;
pub mod procinfo;
pub mod snapshot;
pub mod eventrec;
pub mod dotnet_templates;
pub mod dotnetrec;
pub mod dotnet_events;
pub mod channels;
pub mod weljson;
pub mod observables;
pub mod pushover;
pub mod webroutes;
pub mod syncplan;
