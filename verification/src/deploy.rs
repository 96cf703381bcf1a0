//! The deploy hook: which GitHub pushes trigger a deploy, how a push's
//! signature is checked, how the deploy's steps follow one another, and what
//! its log records.

use hmac::Mac;
use vstd::prelude::*;
use vstd::string::*;
use vstd::utf8::*;

use crate::text::{chars_of, str_concat, is_prefix, lemma_views_push, str_eq, string_of, strip_prefix, views};

verus! {

/// How many error lines a failed deploy keeps.
pub const MAX_ERROR_LINES: usize = 20;

/// HMAC-SHA256 of `message` under `key`.
pub uninterp spec fn hmac_sha256(key: Seq<u8>, message: Seq<u8>) -> Seq<u8>;

/// Computes HMAC-SHA256 with the `hmac` and `sha2` crates. `Hmac` accepts
/// keys of any length, so the result is always present and 32 bytes long.
#[verifier::external_body]
fn hmac_sha256_digest(key: &[u8], message: &[u8]) -> (r: Option<Vec<u8>>)
    ensures
        r is Some,
        r matches Some(d) ==> d@ == hmac_sha256(key@, message@),
        r matches Some(d) ==> d@.len() == 32,
{
    let mut mac = <hmac::Hmac<sha2::Sha256> as Mac>::new_from_slice(key).ok()?;
    mac.update(message);
    Some(mac.finalize().into_bytes().to_vec())
}

/// The lowercase hexadecimal digit of a value below 16.
pub open spec fn hex_digit(n: nat) -> char {
    if n == 0 { '0' }
    else if n == 1 { '1' }
    else if n == 2 { '2' }
    else if n == 3 { '3' }
    else if n == 4 { '4' }
    else if n == 5 { '5' }
    else if n == 6 { '6' }
    else if n == 7 { '7' }
    else if n == 8 { '8' }
    else if n == 9 { '9' }
    else if n == 10 { 'a' }
    else if n == 11 { 'b' }
    else if n == 12 { 'c' }
    else if n == 13 { 'd' }
    else if n == 14 { 'e' }
    else { 'f' }
}

/// Lowercase hexadecimal writing of bytes, two digits per byte.
pub open spec fn hex_lower(bytes: Seq<u8>) -> Seq<char>
    decreases bytes.len(),
{
    if bytes.len() == 0 {
        Seq::empty()
    } else {
        seq![hex_digit((bytes[0] / 16) as nat), hex_digit((bytes[0] % 16) as nat)] + hex_lower(
            bytes.drop_first(),
        )
    }
}

/// `hex::encode`: each byte as two lowercase hexadecimal digits.
#[verifier::external_body]
fn hex_encode(bytes: &[u8]) -> (r: String)
    ensures
        r@ == hex_lower(bytes@),
{
    hex::encode(bytes)
}

/// `constant_time_eq::constant_time_eq`: whether two byte strings are equal,
/// compared in time that does not depend on where they differ.
#[verifier::external_body]
fn bytes_equal_constant_time(a: &[u8], b: &[u8]) -> (r: bool)
    ensures
        r == (a@ == b@),
{
    constant_time_eq::constant_time_eq(a, b)
}

/// The signature GitHub sends for `payload` under `secret`: `sha256=`
/// followed by the hex HMAC-SHA256 of the payload.
pub open spec fn expected_signature_hex(payload: Seq<u8>, secret: Seq<char>) -> Seq<char> {
    hex_lower(hmac_sha256(encode_utf8(secret), payload))
}

/// Whether `header` is a valid GitHub signature of `payload`: a secret is
/// configured, the header starts with `sha256=`, and the rest is the hex
/// HMAC-SHA256 of the payload under the secret.
pub open spec fn signature_valid(payload: Seq<u8>, header: Seq<char>, secret: Option<Seq<char>>) -> bool {
    match secret {
        None => false,
        Some(k) => is_prefix("sha256="@, header) && header.subrange(7, header.len() as int)
            == expected_signature_hex(payload, k),
    }
}

proof fn lemma_encode_utf8_injective(a: Seq<char>, b: Seq<char>)
    ensures
        (encode_utf8(a) == encode_utf8(b)) == (a == b),
{
    broadcast use encode_utf8_decode_utf8;
    if encode_utf8(a) == encode_utf8(b) {
        assert(decode_utf8(encode_utf8(a)) == a);
        assert(decode_utf8(encode_utf8(b)) == b);
    }
}

/// Whether the hex text `expected` (the header after `sha256=`) is the hex
/// writing of `digest`; compared in constant time.
pub fn digest_matches(digest: &[u8], expected: &str) -> (r: bool)
    ensures
        r == (expected@ == hex_lower(digest@)),
{
    let computed = hex_encode(digest);
    let r = bytes_equal_constant_time(computed.as_str().as_bytes(), expected.as_bytes());
    proof {
        lemma_encode_utf8_injective(computed@, expected@);
    }
    r
}

/// Checks a GitHub webhook signature header against the payload. `secret`
/// is the configured webhook secret, if any.
pub fn verify_signature(payload: &[u8], header: &str, secret: Option<&str>) -> (r: bool)
    ensures
        r == signature_valid(payload@, header@, match secret {
            Some(k) => Some(k@),
            None => None,
        }),
{
    let secret = match secret {
        Some(s) => s,
        None => return false,
    };
    proof {
        reveal_strlit("sha256=");
    }
    let expected = match strip_prefix(header, "sha256=") {
        Some(t) => t,
        None => return false,
    };
    let digest = match hmac_sha256_digest(secret.as_bytes(), payload) {
        Some(d) => d,
        None => return false,
    };
    digest_matches(digest.as_slice(), expected.as_str())
}

/// What a GitHub push payload's `ref` field holds: `None` when the payload
/// is not JSON; `Some(None)` when it is JSON without a string `ref`.
pub uninterp spec fn payload_ref(payload: Seq<u8>) -> Option<Option<Seq<char>>>;

/// Reads the `ref` field of a JSON payload with `serde_json`.
#[verifier::external_body]
fn read_payload_ref(payload: &[u8]) -> (r: Option<Option<String>>)
    ensures
        r matches Some(x) ==> payload_ref(payload@) == Some(
            match x {
                Some(s) => Some(s@),
                None => None::<Seq<char>>,
            },
        ),
        r is None ==> payload_ref(payload@) is None,
{
    let v = serde_json::from_slice::<serde_json::Value>(payload).ok()?;
    Some(v.get("ref").and_then(|x| x.as_str()).map(|s| s.to_string()))
}

/// What the deploy hook does with a delivery.
#[derive(Debug, Clone, Copy, PartialEq, Eq, Structural)]
pub enum WebhookOutcome {
    /// Not a push event: acknowledged and ignored.
    NotPush,
    /// The signature does not check out: refused.
    BadSignature,
    /// The payload is not JSON: acknowledged and ignored.
    InvalidPayload,
    /// A push to a branch other than main: acknowledged and ignored.
    OtherBranch,
    /// A push to main: acknowledged, and a deploy starts.
    Deploy,
}

impl WebhookOutcome {
    /// The HTTP status that answers the delivery.
    pub fn status_code(&self) -> (r: u16)
        ensures
            r == (if *self == WebhookOutcome::BadSignature { 401u16 } else { 200u16 }),
    {
        match self {
            WebhookOutcome::BadSignature => 401,
            _ => 200,
        }
    }
}

/// The outcome of a delivery with the given `X-GitHub-Event` and
/// `X-Hub-Signature-256` headers (empty when absent), payload and secret.
pub open spec fn webhook_outcome_of(
    event_type: Seq<char>,
    signature: Seq<char>,
    payload: Seq<u8>,
    secret: Option<Seq<char>>,
) -> WebhookOutcome {
    if event_type != "push"@ {
        WebhookOutcome::NotPush
    } else if !signature_valid(payload, signature, secret) {
        WebhookOutcome::BadSignature
    } else {
        outcome_for_ref(payload_ref(payload))
    }
}

/// The outcome of a signed push whose payload's `ref` field reads as
/// `payload_ref` (see [`payload_ref`]).
pub open spec fn outcome_for_ref(payload_ref: Option<Option<Seq<char>>>) -> WebhookOutcome {
    match payload_ref {
        None => WebhookOutcome::InvalidPayload,
        Some(Some(r)) => if r == "refs/heads/main"@ {
            WebhookOutcome::Deploy
        } else {
            WebhookOutcome::OtherBranch
        },
        Some(None) => WebhookOutcome::OtherBranch,
    }
}

/// Decides what a signed push does from its payload's `ref` field: `None`
/// when the payload is not JSON, `Some(None)` when it has no string `ref`.
pub fn outcome_from_ref(payload_ref: Option<Option<&str>>) -> (r: WebhookOutcome)
    ensures
        r == outcome_for_ref(match payload_ref {
            None => None,
            Some(None) => Some(None),
            Some(Some(s)) => Some(Some(s@)),
        }),
{
    match payload_ref {
        None => WebhookOutcome::InvalidPayload,
        Some(Some(r)) => {
            if str_eq(r, "refs/heads/main") {
                WebhookOutcome::Deploy
            } else {
                WebhookOutcome::OtherBranch
            }
        },
        Some(None) => WebhookOutcome::OtherBranch,
    }
}

/// Decides what to do with a webhook delivery: only signed pushes to main
/// deploy.
pub fn handle_webhook(event_type: &str, signature: &str, payload: &[u8], secret: Option<&str>) -> (r:
    WebhookOutcome)
    ensures
        r == webhook_outcome_of(event_type@, signature@, payload@, match secret {
            Some(k) => Some(k@),
            None => None,
        }),
{
    if !str_eq(event_type, "push") {
        return WebhookOutcome::NotPush;
    }
    if !verify_signature(payload, signature, secret) {
        return WebhookOutcome::BadSignature;
    }
    match read_payload_ref(payload) {
        None => outcome_from_ref(None),
        Some(Some(r)) => outcome_from_ref(Some(Some(r.as_str()))),
        Some(None) => outcome_from_ref(Some(None)),
    }
}

/// The signature a sender computes with the shared secret is accepted:
/// `sha256=` followed by the hex HMAC-SHA256 of the payload.
pub proof fn lemma_sender_signature_accepted(payload: Seq<u8>, secret: Seq<char>)
    ensures
        signature_valid(payload, "sha256="@ + expected_signature_hex(payload, secret), Some(secret)),
{
    reveal_strlit("sha256=");
    let h = "sha256="@ + expected_signature_hex(payload, secret);
    assert(h.subrange(0, 7) =~= "sha256="@);
    assert(h.subrange(7, h.len() as int) =~= expected_signature_hex(payload, secret));
}

/// A delivery starts a deploy exactly when it is a push, its signature
/// checks out, and its payload names `refs/heads/main`.
pub proof fn lemma_deploy_only_for_signed_main_push(
    event_type: Seq<char>,
    signature: Seq<char>,
    payload: Seq<u8>,
    secret: Option<Seq<char>>,
)
    ensures
        (webhook_outcome_of(event_type, signature, payload, secret) == WebhookOutcome::Deploy) <==> (
        event_type == "push"@ && signature_valid(payload, signature, secret) && payload_ref(payload)
            == Some(Some("refs/heads/main"@))),
{
}

/// Without a configured secret no push is accepted: every push is refused
/// as unsigned, and nothing deploys.
pub proof fn lemma_no_secret_no_deploy(event_type: Seq<char>, signature: Seq<char>, payload: Seq<u8>)
    ensures
        webhook_outcome_of(event_type, signature, payload, None) == (if event_type == "push"@ {
            WebhookOutcome::BadSignature
        } else {
            WebhookOutcome::NotPush
        }),
{
}

/// Guards against two deploys at once.
pub struct BuildGate {
    pub busy: bool,
}

impl BuildGate {
    /// A gate with no build running.
    pub fn new() -> (g: BuildGate)
        ensures
            !g.busy,
    {
        BuildGate { busy: false }
    }

    /// Starts a build unless one is running; tells whether this caller may
    /// build.
    pub fn try_start(&mut self) -> (r: bool)
        ensures
            r == !old(self).busy,
            final(self).busy,
    {
        if self.busy {
            false
        } else {
            self.busy = true;
            true
        }
    }

    /// Marks the running build as done.
    pub fn finish(&mut self)
        ensures
            !final(self).busy,
    {
        self.busy = false;
    }
}

/// A line without the `\r` that ends it, if any.
pub open spec fn strip_cr(l: Seq<char>) -> Seq<char> {
    if l.len() > 0 && l.last() == '\r' {
        l.drop_last()
    } else {
        l
    }
}

/// The lines ended by `\n` so far, and the unfinished line after them.
pub open spec fn line_split(s: Seq<char>) -> (Seq<Seq<char>>, Seq<char>)
    decreases s.len(),
{
    if s.len() == 0 {
        (Seq::empty(), Seq::empty())
    } else {
        let (done, cur) = line_split(s.drop_last());
        if s.last() == '\n' {
            (done.push(strip_cr(cur)), Seq::empty())
        } else {
            (done, cur.push(s.last()))
        }
    }
}

/// The lines of `s`, as `str::lines` gives them: split at `\n` or `\r\n`,
/// with an optional final line ending.
pub open spec fn lines_of(s: Seq<char>) -> Seq<Seq<char>> {
    let (done, cur) = line_split(s);
    if cur.len() > 0 {
        done.push(cur)
    } else {
        done
    }
}

/// The lines that are not empty, in order.
pub open spec fn non_empty(ls: Seq<Seq<char>>) -> Seq<Seq<char>>
    decreases ls.len(),
{
    if ls.len() == 0 {
        Seq::empty()
    } else if ls.last().len() > 0 {
        non_empty(ls.drop_last()).push(ls.last())
    } else {
        non_empty(ls.drop_last())
    }
}

/// The last `k` elements of `s`, or all of them when there are fewer.
pub open spec fn last_n(s: Seq<Seq<char>>, k: nat) -> Seq<Seq<char>> {
    if s.len() <= k {
        s
    } else {
        s.subrange(s.len() - k, s.len() as int)
    }
}

/// The first `k` elements of `s`, or all of them when there are fewer.
pub open spec fn first_n(s: Seq<Seq<char>>, k: nat) -> Seq<Seq<char>> {
    if s.len() <= k {
        s
    } else {
        s.subrange(0, k as int)
    }
}

/// The non-empty lines of `s`.
pub fn non_empty_lines(s: &str) -> (r: Vec<String>)
    ensures
        views(r@) == non_empty(lines_of(s@)),
{
    let chars = chars_of(s);
    let n = chars.len();
    let mut out: Vec<String> = Vec::new();
    let mut cur: Vec<char> = Vec::new();
    let ghost mut done: Seq<Seq<char>> = Seq::empty();
    let mut i: usize = 0;
    while i < n
        invariant
            n == chars@.len(),
            chars@ == s@,
            0 <= i <= n,
            line_split(s@.subrange(0, i as int)) == (done, cur@),
            views(out@) == non_empty(done),
        decreases n - i,
    {
        let c = chars[i];
        let ghost pre = s@.subrange(0, i as int);
        assert(s@.subrange(0, i + 1).drop_last() =~= pre);
        assert(s@.subrange(0, i + 1).last() == c);
        if c == '\n' {
            let ghost old_cur = cur@;
            if cur.len() > 0 && cur[cur.len() - 1] == '\r' {
                cur.pop();
            }
            assert(cur@ =~= strip_cr(old_cur));
            let ghost line = cur@;
            let ghost old_done = done;
            proof {
                done = done.push(line);
            }
            assert(done.drop_last() =~= old_done);
            if cur.len() > 0 {
                let l = string_of(cur.as_slice());
                let ghost old_out = out@;
                out.push(l);
                proof {
                    lemma_views_push(old_out, l);
                }
            }
            cur = Vec::new();
        } else {
            cur.push(c);
        }
        i = i + 1;
    }
    assert(s@.subrange(0, n as int) =~= s@);
    if cur.len() > 0 {
        let l = string_of(cur.as_slice());
        let ghost old_out = out@;
        out.push(l);
        proof {
            lemma_views_push(old_out, l);
        }
        assert(done.push(cur@).drop_last() =~= done);
    }
    out
}

/// Which step of a deploy ran.
#[derive(Debug, Clone, Copy, PartialEq, Eq, Structural)]
pub enum DeployStep {
    /// `git pull origin main`
    Pull,
    /// `cargo build --release`
    Build,
    /// `systemctl restart kbr-api-rust`
    Restart,
}

/// The command line that runs a deploy step: the program, then its
/// arguments.
pub open spec fn step_command_of(step: DeployStep) -> Seq<Seq<char>> {
    match step {
        DeployStep::Pull => seq!["git"@, "pull"@, "origin"@, "main"@],
        DeployStep::Build => seq!["cargo"@, "build"@, "--release"@],
        DeployStep::Restart => seq!["sudo"@, "/usr/bin/systemctl"@, "restart"@, "kbr-api-rust"@],
    }
}

/// The command line that runs a deploy step: the program, then its
/// arguments.
pub fn step_command(step: DeployStep) -> (r: Vec<&'static str>)
    ensures
        r@.map_values(|w: &str| w@) == step_command_of(step),
{
    let mut v: Vec<&'static str> = Vec::new();
    match step {
        DeployStep::Pull => {
            v.push("git");
            v.push("pull");
            v.push("origin");
            v.push("main");
        },
        DeployStep::Build => {
            v.push("cargo");
            v.push("build");
            v.push("--release");
        },
        DeployStep::Restart => {
            v.push("sudo");
            v.push("/usr/bin/systemctl");
            v.push("restart");
            v.push("kbr-api-rust");
        },
    }
    assert(v@.map_values(|w: &str| w@) =~= step_command_of(step));
    v
}

/// What comes after a deploy step.
#[derive(Debug, Clone, PartialEq, Eq)]
pub enum DeployNext {
    /// Run the next step.
    Run(DeployStep),
    /// The deploy failed; these are the error lines to log.
    Failed(Vec<String>),
    /// The deploy is complete.
    Succeeded,
}

/// The error lines kept when a step fails: for the pull and the build, the
/// last twenty non-empty lines of stdout followed by stderr; for the
/// restart, the first twenty non-empty lines of stderr.
pub open spec fn error_lines_of(step: DeployStep, stdout: Seq<char>, stderr: Seq<char>) -> Seq<Seq<char>> {
    match step {
        DeployStep::Restart => first_n(non_empty(lines_of(stderr)), 20),
        _ => last_n(non_empty(lines_of(stdout + stderr)), 20),
    }
}

/// The step that follows a successful one.
pub open spec fn step_after(step: DeployStep) -> Option<DeployStep> {
    match step {
        DeployStep::Pull => Some(DeployStep::Build),
        DeployStep::Build => Some(DeployStep::Restart),
        DeployStep::Restart => None,
    }
}

/// Decides what follows a deploy step, given whether its command succeeded
/// and what it printed.
pub fn after_step(step: DeployStep, success: bool, stdout: &str, stderr: &str) -> (r: DeployNext)
    ensures
        !success ==> (r matches DeployNext::Failed(lines) && views(lines@) == error_lines_of(
            step,
            stdout@,
            stderr@,
        )),
        success ==> (match step_after(step) {
            Some(next) => r == DeployNext::Run(next),
            None => r == DeployNext::Succeeded,
        }),
{
    if success {
        return match step {
            DeployStep::Pull => DeployNext::Run(DeployStep::Build),
            DeployStep::Build => DeployNext::Run(DeployStep::Restart),
            DeployStep::Restart => DeployNext::Succeeded,
        };
    }
    match step {
        DeployStep::Restart => {
            let all = non_empty_lines(stderr);
            let n = all.len();
            let k: usize = if n < MAX_ERROR_LINES { n } else { MAX_ERROR_LINES };
            let mut out: Vec<String> = Vec::new();
            let mut i: usize = 0;
            while i < k
                invariant
                    n == all@.len(),
                    k <= n,
                    k == (if n < 20 { n } else { 20 }),
                    0 <= i <= k,
                    views(out@) == views(all@).subrange(0, i as int),
                decreases k - i,
            {
                let ghost old_out = out@;
                let x = all[i].clone();
                out.push(x);
                proof {
                    lemma_views_push(old_out, x);
                }
                assert(views(out@) =~= views(all@).subrange(0, i + 1));
                i = i + 1;
            }
            assert(views(all@).subrange(0, k as int) =~= first_n(views(all@), 20));
            DeployNext::Failed(out)
        },
        _ => {
            let joined = str_concat(stdout, stderr);
            let all = non_empty_lines(joined.as_str());
            let n = all.len();
            let start: usize = if n < MAX_ERROR_LINES { 0 } else { n - MAX_ERROR_LINES };
            let mut out: Vec<String> = Vec::new();
            let mut i: usize = start;
            while i < n
                invariant
                    n == all@.len(),
                    start == (if n < 20 { 0 } else { n - 20 }),
                    start <= i <= n,
                    views(out@) == views(all@).subrange(start as int, i as int),
                decreases n - i,
            {
                let ghost old_out = out@;
                let x = all[i].clone();
                out.push(x);
                proof {
                    lemma_views_push(old_out, x);
                }
                assert(views(out@) =~= views(all@).subrange(start as int, i + 1));
                i = i + 1;
            }
            assert(views(all@).subrange(start as int, n as int) =~= last_n(views(all@), 20));
            DeployNext::Failed(out)
        },
    }
}

/// The lines a deploy adds to its log, before they are joined: a header
/// with the time and the verdict, the durations, the error lines if any,
/// and a separator.
pub open spec fn log_lines(
    timestamp: Seq<char>,
    success: bool,
    total: Seq<char>,
    pull: Seq<char>,
    build: Seq<char>,
    restart: Seq<char>,
    errors: Seq<Seq<char>>,
) -> Seq<Seq<char>> {
    let head = seq![
        "\n=== "@ + timestamp + " "@ + (if success { "SUCCESS"@ } else { "FAILED"@ }) + " ==="@,
        "Total elapsed: "@ + total,
        "Pull: "@ + pull,
        "Build: "@ + build,
        "Restart: "@ + restart,
    ];
    let body = if errors.len() > 0 {
        seq!["Last error lines:"@] + errors.map_values(|l: Seq<char>| "  "@ + l)
    } else {
        Seq::empty()
    };
    head + body + seq!["---"@]
}

/// Lines joined with `\n`, each followed by one: the way the log is written.
pub open spec fn joined_lines(ls: Seq<Seq<char>>) -> Seq<char>
    decreases ls.len(),
{
    if ls.len() == 0 {
        Seq::empty()
    } else {
        joined_lines(ls.drop_last()) + ls.last() + "\n"@
    }
}

/// The text a deploy appends to its log. The timestamp and durations come
/// already formatted.
pub fn deploy_log_entry(
    timestamp: &str,
    success: bool,
    total: &str,
    pull: &str,
    build: &str,
    restart: &str,
    error_lines: &[String],
) -> (r: String)
    ensures
        r@ == joined_lines(log_lines(timestamp@, success, total@, pull@, build@, restart@, views(error_lines@))),
{
    let ghost ls = log_lines(timestamp@, success, total@, pull@, build@, restart@, views(error_lines@));
    let mut out = String::new();
    let mut line = str_concat("\n=== ", timestamp);
    line.append(" ");
    line.append(if success { "SUCCESS" } else { "FAILED" });
    line.append(" ===");
    assert(line@ =~= ls[0]);
    out.append(line.as_str());
    assert(out@ =~= ls[0]);
    out.append("\n");
    assert(ls.subrange(0, 1).drop_last() =~= Seq::<Seq<char>>::empty());
    assert(ls.subrange(0, 1).last() == ls[0]);
    assert(joined_lines(ls.subrange(0, 1)) == joined_lines(Seq::<Seq<char>>::empty()) + ls[0] + "\n"@);
    assert(out@ =~= joined_lines(ls.subrange(0, 1)));
    let l2 = str_concat("Total elapsed: ", total);
    out.append(l2.as_str());
    out.append("\n");
    assert(ls.subrange(0, 2).drop_last() =~= ls.subrange(0, 1));
    assert(out@ =~= joined_lines(ls.subrange(0, 2)));
    let l3 = str_concat("Pull: ", pull);
    out.append(l3.as_str());
    out.append("\n");
    assert(ls.subrange(0, 3).drop_last() =~= ls.subrange(0, 2));
    assert(out@ =~= joined_lines(ls.subrange(0, 3)));
    let l4 = str_concat("Build: ", build);
    out.append(l4.as_str());
    out.append("\n");
    assert(ls.subrange(0, 4).drop_last() =~= ls.subrange(0, 3));
    assert(out@ =~= joined_lines(ls.subrange(0, 4)));
    let l5 = str_concat("Restart: ", restart);
    out.append(l5.as_str());
    out.append("\n");
    assert(ls.subrange(0, 5).drop_last() =~= ls.subrange(0, 4));
    assert(out@ =~= joined_lines(ls.subrange(0, 5)));
    let n = error_lines.len();
    let ghost mut k: int = 5;
    if n > 0 {
        out.append("Last error lines:");
        out.append("\n");
        assert(ls.subrange(0, 6).drop_last() =~= ls.subrange(0, 5));
        assert(out@ =~= joined_lines(ls.subrange(0, 6)));
        proof {
            k = 6;
        }
        let mut i: usize = 0;
        while i < n
            invariant
                n == error_lines@.len(),
                n > 0,
                0 <= i <= n,
                k == 6 + i,
                ls == log_lines(timestamp@, success, total@, pull@, build@, restart@, views(error_lines@)),
                ls.len() == n + 7,
                out@ == joined_lines(ls.subrange(0, k)),
            decreases n - i,
        {
            let l = str_concat("  ", error_lines[i].as_str());
            out.append(l.as_str());
            out.append("\n");
            assert(ls[6 + i] == "  "@ + error_lines@[i as int]@);
            assert(ls.subrange(0, k + 1).drop_last() =~= ls.subrange(0, k));
            assert(out@ =~= joined_lines(ls.subrange(0, k + 1)));
            i = i + 1;
            proof {
                k = k + 1;
            }
        }
    }
    out.append("---");
    out.append("\n");
    assert(ls.subrange(0, k + 1).drop_last() =~= ls.subrange(0, k));
    assert(ls.subrange(0, k + 1) =~= ls);
    out
}

} // verus!
