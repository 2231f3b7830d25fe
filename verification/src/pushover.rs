use vstd::prelude::*;

verus! {

broadcast use vstd::string::group_string_axioms;

/// A Pushover notification: who gets it, with which application token, and
/// what it says.
pub struct PushOverMessage {
    pub user: String,
    pub token: String,
    pub title: String,
    pub message: String,
}

/// The host's address and name as reported.
pub struct NetInfo {
    pub ip: String,
    pub hostname: String,
}

/// The Pushover credentials read from the configuration file.
pub struct Config {
    pub pushovertoken: String,
    pub pushoveruser: String,
}

/// The text of the notification about a host.
pub open spec fn host_text(hostname: Seq<char>, ip: Seq<char>) -> Seq<char> {
    "Hostname: "@ + hostname + ", IP: "@ + ip
}

/// The notification that reports where a host is: titled with its name,
/// saying its name and address.
pub fn host_message(config: &Config, ni: &NetInfo) -> (msg: PushOverMessage)
    ensures
        msg.user@ == config.pushoveruser@,
        msg.token@ == config.pushovertoken@,
        msg.title@ == ni.hostname@,
        msg.message@ == host_text(ni.hostname@, ni.ip@),
{
    let mut message = "Hostname: ".to_string();
    message.append(ni.hostname.as_str());
    message.append(", IP: ");
    message.append(ni.ip.as_str());
    PushOverMessage {
        user: config.pushoveruser.clone(),
        token: config.pushovertoken.clone(),
        title: ni.hostname.clone(),
        message: message,
    }
}

/// The URL a notification is posted to: the fields as query parameters,
/// written as they are (no escaping).
pub open spec fn message_url_spec(msg: PushOverMessage) -> Seq<char> {
    "https://api.pushover.net/1/messages.json?user="@ + msg.user@ + "&token="@ + msg.token@
        + "&title="@ + msg.title@ + "&message="@ + msg.message@
}

/// The URL a notification is posted to.
pub fn message_url(msg: &PushOverMessage) -> (url: String)
    ensures
        url@ == message_url_spec(*msg),
{
    let mut url = "https://api.pushover.net/1/messages.json?user=".to_string();
    url.append(msg.user.as_str());
    url.append("&token=");
    url.append(msg.token.as_str());
    url.append("&title=");
    url.append(msg.title.as_str());
    url.append("&message=");
    url.append(msg.message.as_str());
    url
}

} // verus!
