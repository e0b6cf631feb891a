use vstd::prelude::*;
use vstd::string::StringExecFns;

verus! {

/// The final component of a path, when it has one.
pub uninterp spec fn file_name_of(path: Seq<char>) -> Option<Seq<char>>;

/// Relies on std::path::Path::file_name: the final component depends on the path alone.
#[verifier::external_body]
fn path_file_name(path: &str) -> (r: Option<String>)
    ensures
        match r {
            Some(n) => file_name_of(path@) == Some(n@),
            None => file_name_of(path@) is None,
        },
{
    match std::path::Path::new(path).file_name() {
        Some(n) => Some(n.to_string_lossy().into_owned()),
        None => None,
    }
}

/// Decimal digits of a number, most significant first.
pub open spec fn decimal(n: nat) -> Seq<char>
    decreases n,
{
    if n < 10 {
        seq![digit_char(n)]
    } else {
        decimal(n / 10).push(digit_char(n % 10))
    }
}

pub open spec fn digit_char(d: nat) -> char {
    if d == 0 { '0' }
    else if d == 1 { '1' }
    else if d == 2 { '2' }
    else if d == 3 { '3' }
    else if d == 4 { '4' }
    else if d == 5 { '5' }
    else if d == 6 { '6' }
    else if d == 7 { '7' }
    else if d == 8 { '8' }
    else { '9' }
}

/// Name given to the attachment when the image path has no file name.
pub open spec fn default_file_name() -> Seq<char> {
    "motion.jpg"@
}

/// Name under which an image at `path` is attached.
pub open spec fn attachment_name(path: Seq<char>) -> Seq<char> {
    match file_name_of(path) {
        Some(n) => n,
        None => default_file_name(),
    }
}

/// Text of the alert that accompanies an image.
pub open spec fn alert_text(timestamp: Seq<char>) -> Seq<char> {
    "**Motion Detected!**\n\nTimestamp: `"@ + timestamp + "`\nLocation: Raspberry Pi"@
}

/// Stand-in for a response body that could not be read.
pub open spec fn unreadable_body() -> Seq<char> {
    "Unable to read response body"@
}

/// Whether an HTTP status is in the success range.
pub open spec fn is_success(status: u16) -> bool {
    200 <= status < 300
}

/// Detail of a webhook call answered with a status outside the success range.
pub open spec fn status_detail(status: u16, body: Option<Seq<char>>) -> Seq<char> {
    "Discord webhook failed with status "@ + decimal(status as nat) + ": "@ + match body {
        Some(b) => b,
        None => unreadable_body(),
    }
}

/// Result of one notification attempt.
#[derive(Debug, Clone)]
pub struct NotificationOutcome {
    pub success: bool,
    pub detail: Option<String>,
}

/// Discord webhook client.
pub struct DiscordClient {
    webhook_url: String,
}

fn digit_str(d: u16) -> (r: &'static str)
    requires
        d < 10,
    ensures
        r@ == seq![digit_char(d as nat)],
{
    proof {
        reveal_strlit("0");
        reveal_strlit("1");
        reveal_strlit("2");
        reveal_strlit("3");
        reveal_strlit("4");
        reveal_strlit("5");
        reveal_strlit("6");
        reveal_strlit("7");
        reveal_strlit("8");
        reveal_strlit("9");
    }
    if d == 0 { "0" }
    else if d == 1 { "1" }
    else if d == 2 { "2" }
    else if d == 3 { "3" }
    else if d == 4 { "4" }
    else if d == 5 { "5" }
    else if d == 6 { "6" }
    else if d == 7 { "7" }
    else if d == 8 { "8" }
    else { "9" }
}

/// Decimal text of a number.
pub fn decimal_text(n: u16) -> (r: String)
    ensures
        r@ == decimal(n as nat),
    decreases n,
{
    if n < 10 {
        String::from_str(digit_str(n))
    } else {
        let mut s = decimal_text(n / 10);
        s.append(digit_str(n % 10));
        s
    }
}

/// Name under which an image at `path` is attached: its file name, or a
/// fixed default when the path has none.
pub fn attachment_file_name(path: &str) -> (r: String)
    ensures
        r@ == attachment_name(path@),
{
    match path_file_name(path) {
        Some(n) => n,
        None => String::from_str("motion.jpg"),
    }
}

/// Text of the alert that accompanies an image captured at `timestamp`.
pub fn alert_message(timestamp: &str) -> (r: String)
    ensures
        r@ == alert_text(timestamp@),
{
    let mut s = String::from_str("**Motion Detected!**\n\nTimestamp: `");
    s.append(timestamp);
    s.append("`\nLocation: Raspberry Pi");
    s
}

impl NotificationOutcome {
    /// The outcome of a webhook call answered with `status`; `body` is the
    /// response text, when it could be read.
    pub fn from_response(status: u16, body: Option<String>) -> (r: Self)
        ensures
            r.success == is_success(status),
            is_success(status) ==> r.detail is None,
            !is_success(status) ==> (r.detail matches Some(d) && d@ == status_detail(
                status,
                match body {
                    Some(b) => Some(b@),
                    None => None,
                },
            )),
    {
        if 200 <= status && status < 300 {
            NotificationOutcome { success: true, detail: None }
        } else {
            let mut d = String::from_str("Discord webhook failed with status ");
            let code = decimal_text(status);
            d.append(code.as_str());
            d.append(": ");
            match body {
                Some(b) => d.append(b.as_str()),
                None => d.append("Unable to read response body"),
            }
            NotificationOutcome { success: false, detail: Some(d) }
        }
    }

    /// The outcome when the image could not be read; `cause` says why.
    pub fn read_failed(cause: &str) -> (r: Self)
        ensures
            !r.success,
            r.detail matches Some(d) && d@ == "Failed to read image file: "@ + cause@,
    {
        let mut d = String::from_str("Failed to read image file: ");
        d.append(cause);
        NotificationOutcome { success: false, detail: Some(d) }
    }

    /// The outcome when the request could not be delivered; `cause` says why.
    pub fn transport_failed(cause: &str) -> (r: Self)
        ensures
            !r.success,
            r.detail matches Some(d) && d@ == "Failed to send Discord webhook: "@ + cause@,
    {
        let mut d = String::from_str("Failed to send Discord webhook: ");
        d.append(cause);
        NotificationOutcome { success: false, detail: Some(d) }
    }
}

impl DiscordClient {
    pub closed spec fn url_spec(&self) -> Seq<char> {
        self.webhook_url@
    }

    /// Create a client for the webhook at `webhook_url`.
    pub fn new(webhook_url: String) -> (r: Self)
        ensures
            r.url_spec() == webhook_url@,
    {
        DiscordClient { webhook_url }
    }

    pub fn webhook_url(&self) -> (r: &str)
        ensures
            r@ == self.url_spec(),
    {
        self.webhook_url.as_str()
    }

    /// Text of the start-up connection test message.
    pub fn test_message() -> (r: &'static str)
        ensures
            r@ == "Raspberry Eye: Connection test successful!"@,
    {
        "Raspberry Eye: Connection test successful!"
    }

    /// Whether the connection test passed, given the status it was answered with.
    pub fn test_passed(status: u16) -> (r: bool)
        ensures
            r == is_success(status),
    {
        200 <= status && status < 300
    }
}

} // verus!
