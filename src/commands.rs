//! Commands of the line-oriented serial protocol and their text rendering.
use vstd::prelude::*;
use vstd::string::*;

verus! {

/// The character of a decimal digit.
pub open spec fn digit_char(d: int) -> char {
    if d == 0 { '0' }
    else if d == 1 { '1' }
    else if d == 2 { '2' }
    else if d == 3 { '3' }
    else if d == 4 { '4' }
    else if d == 5 { '5' }
    else if d == 6 { '6' }
    else if d == 7 { '7' }
    else if d == 8 { '8' }
    else { '9' }
}

/// Decimal digits of a natural number, most significant first, no leading zeros.
pub open spec fn nat_digits(n: nat) -> Seq<char>
    decreases n,
{
    if n < 10 {
        seq![digit_char(n as int)]
    } else {
        nat_digits(n / 10).push(digit_char((n % 10) as int))
    }
}

/// Decimal text of an integer, with a leading minus sign when negative.
pub open spec fn int_text(i: int) -> Seq<char> {
    if i < 0 {
        seq!['-'] + nat_digits((-i) as nat)
    } else {
        nat_digits(i as nat)
    }
}

fn digit_str(d: u8) -> (r: &'static str)
    requires
        d < 10,
    ensures
        r@ == seq![digit_char(d as int)],
{
    proof {
        reveal_strlit("0");
        reveal_strlit("1");
        reveal_strlit("2");
        reveal_strlit("3");
        reveal_strlit("4");
        reveal_strlit("5");
        reveal_strlit("6");
        reveal_strlit("7");
        reveal_strlit("8");
        reveal_strlit("9");
    }
    let r = if d == 0 { "0" }
    else if d == 1 { "1" }
    else if d == 2 { "2" }
    else if d == 3 { "3" }
    else if d == 4 { "4" }
    else if d == 5 { "5" }
    else if d == 6 { "6" }
    else if d == 7 { "7" }
    else if d == 8 { "8" }
    else { "9" };
    assert(r@ =~= seq![digit_char(d as int)]);
    r
}

/// Appends the decimal digits of `n` to `out`.
fn push_digits(out: &mut String, n: u8)
    ensures
        final(out)@ == old(out)@ + nat_digits(n as nat),
{
    proof {
        reveal_with_fuel(nat_digits, 3);
    }
    if n >= 100 {
        out.append(digit_str(n / 100));
    }
    if n >= 10 {
        out.append(digit_str((n / 10) % 10));
    }
    out.append(digit_str(n % 10));
    proof {
        let ghost m = n as nat;
        if m >= 100 {
            assert(m / 10 / 10 == m / 100);
            assert((m / 10) % 10 == (n / 10) % 10);
            assert(nat_digits(m / 10) =~= seq![digit_char((m / 100) as int)].push(digit_char(((m / 10) % 10) as int)));
        }
        assert(final(out)@ =~= old(out)@ + nat_digits(m));
    }
}

/// Decimal text of a `u8`.
pub fn u8_text(n: u8) -> (r: String)
    ensures
        r@ == int_text(n as int),
{
    let mut out = String::new();
    push_digits(&mut out, n);
    assert(out@ =~= int_text(n as int));
    out
}

/// Decimal text of an `i8`.
pub fn i8_text(n: i8) -> (r: String)
    ensures
        r@ == int_text(n as int),
{
    let mut out = String::new();
    if n < 0 {
        proof { reveal_strlit("-"); }
        out.append("-");
        let m: u8 = (0i16 - n as i16) as u8;
        push_digits(&mut out, m);
    } else {
        push_digits(&mut out, n as u8);
    }
    assert(out@ =~= int_text(n as int));
    out
}


/// Arguments of a data transmit request (`DTXR`).
#[derive(Debug, Clone)]
pub enum DataTransmitRequestArgs {
    ProfileID(String),
    GlobalSettings,
    BankSettings(u8),
}

/// Arguments of a data request (`DREQ`).
#[derive(Debug, Clone, Copy, PartialEq, Eq, Structural)]
pub enum DataRequestArgs {
    GlobalSettings,
    BankSettings(i8),
}

/// Arguments of a control command (`CTRL`).
#[derive(Debug, Clone, Copy, PartialEq, Eq, Structural)]
pub enum ControlArgs {
    BankUp,
    BankDown,
    GoToBank(i8),
    ToggleFootswitch(i8),
    DeviceRestart,
    EnterBootloader,
    FactoryReset,
}

/// A request of the serial protocol.
#[derive(Debug, Clone)]
pub enum Command {
    /// Asks the device what it is and which firmware it runs (`CHCK`).
    Check,
    /// Bank navigation, footswitches and reset modes (`CTRL`).
    Control(ControlArgs),
    /// Asks the device for global or bank data (`DREQ`).
    DataRequest(DataRequestArgs),
    /// Announces that the host wants to transmit data (`DTXR`).
    DataTransmitRequest(DataTransmitRequestArgs),
    /// Resets the communication state of the device (`RSET`).
    Reset,
}

impl DataTransmitRequestArgs {
    pub open spec fn spec_text(&self) -> Seq<char> {
        match self {
            DataTransmitRequestArgs::ProfileID(s) => "profileId,"@ + s@,
            DataTransmitRequestArgs::GlobalSettings => "globalSettings"@,
            DataTransmitRequestArgs::BankSettings(x) => "bankSettings,"@ + int_text(*x as int),
        }
    }

    /// The argument line, as sent on the wire.
    pub fn text(&self) -> (r: String)
        ensures
            r@ == self.spec_text(),
    {
        match self {
            DataTransmitRequestArgs::ProfileID(s) => {
                let mut out = String::from_str("profileId,");
                out.append(s.as_str());
                out
            },
            DataTransmitRequestArgs::GlobalSettings => String::from_str("globalSettings"),
            DataTransmitRequestArgs::BankSettings(x) => {
                let mut out = String::from_str("bankSettings,");
                let digits = u8_text(*x);
                out.append(digits.as_str());
                out
            },
        }
    }
}

impl DataRequestArgs {
    pub open spec fn spec_text(&self) -> Seq<char> {
        match self {
            DataRequestArgs::GlobalSettings => "globalSettings"@,
            DataRequestArgs::BankSettings(x) => "bankSettings,"@ + int_text(*x as int),
        }
    }

    /// The argument line, as sent on the wire.
    pub fn text(&self) -> (r: String)
        ensures
            r@ == self.spec_text(),
    {
        match self {
            DataRequestArgs::GlobalSettings => String::from_str("globalSettings"),
            DataRequestArgs::BankSettings(x) => {
                let mut out = String::from_str("bankSettings,");
                let digits = i8_text(*x);
                out.append(digits.as_str());
                out
            },
        }
    }
}

impl ControlArgs {
    pub open spec fn spec_text(&self) -> Seq<char> {
        match self {
            ControlArgs::BankUp => "bankUp"@,
            ControlArgs::BankDown => "bankDown"@,
            ControlArgs::GoToBank(x) => "goToBank,"@ + int_text(*x as int),
            ControlArgs::ToggleFootswitch(x) => "toggleFootswitch,"@ + int_text(*x as int),
            ControlArgs::DeviceRestart => "deviceRestart"@,
            ControlArgs::EnterBootloader => "enterBootloader"@,
            ControlArgs::FactoryReset => "factoryReset"@,
        }
    }

    /// The commands that disconnect the device on purpose: for them a broken
    /// pipe is the expected sign of success.
    pub open spec fn spec_is_disruptive(&self) -> bool {
        match self {
            ControlArgs::DeviceRestart | ControlArgs::EnterBootloader | ControlArgs::FactoryReset => true,
            _ => false,
        }
    }

    pub fn is_disruptive(&self) -> (r: bool)
        ensures
            r == self.spec_is_disruptive(),
    {
        match self {
            ControlArgs::DeviceRestart => true,
            ControlArgs::EnterBootloader => true,
            ControlArgs::FactoryReset => true,
            _ => false,
        }
    }

    /// The argument line, as sent on the wire.
    pub fn text(&self) -> (r: String)
        ensures
            r@ == self.spec_text(),
    {
        match self {
            ControlArgs::BankUp => String::from_str("bankUp"),
            ControlArgs::BankDown => String::from_str("bankDown"),
            ControlArgs::GoToBank(x) => {
                let mut out = String::from_str("goToBank,");
                let digits = i8_text(*x);
                out.append(digits.as_str());
                out
            },
            ControlArgs::ToggleFootswitch(x) => {
                let mut out = String::from_str("toggleFootswitch,");
                let digits = i8_text(*x);
                out.append(digits.as_str());
                out
            },
            ControlArgs::DeviceRestart => String::from_str("deviceRestart"),
            ControlArgs::EnterBootloader => String::from_str("enterBootloader"),
            ControlArgs::FactoryReset => String::from_str("factoryReset"),
        }
    }
}

impl Command {
    pub open spec fn spec_tag(&self) -> Seq<char> {
        match self {
            Command::Check => "CHCK"@,
            Command::Control(_) => "CTRL"@,
            Command::DataRequest(_) => "DREQ"@,
            Command::DataTransmitRequest(_) => "DTXR"@,
            Command::Reset => "RSET"@,
        }
    }

    /// The lines that the command renders to: its tag, then its argument if it has one.
    pub open spec fn spec_lines(&self) -> Seq<Seq<char>> {
        match self {
            Command::Check | Command::Reset => seq![self.spec_tag()],
            Command::Control(a) => seq![self.spec_tag(), a.spec_text()],
            Command::DataRequest(a) => seq![self.spec_tag(), a.spec_text()],
            Command::DataTransmitRequest(a) => seq![self.spec_tag(), a.spec_text()],
        }
    }

    /// A broken pipe after this command means that it worked.
    pub open spec fn spec_is_disruptive(&self) -> bool {
        match self {
            Command::Control(a) => a.spec_is_disruptive(),
            _ => false,
        }
    }

    pub fn is_disruptive(&self) -> (r: bool)
        ensures
            r == self.spec_is_disruptive(),
    {
        match self {
            Command::Control(a) => a.is_disruptive(),
            _ => false,
        }
    }

    /// The short tag that opens the command.
    pub fn tag(&self) -> (r: String)
        ensures
            r@ == self.spec_tag(),
    {
        match self {
            Command::Check => String::from_str("CHCK"),
            Command::Control(_) => String::from_str("CTRL"),
            Command::DataRequest(_) => String::from_str("DREQ"),
            Command::DataTransmitRequest(_) => String::from_str("DTXR"),
            Command::Reset => String::from_str("RSET"),
        }
    }

    /// Renders the command to the lines sent to the device, in order.
    pub fn format(&self) -> (r: Vec<String>)
        ensures
            r@.len() == self.spec_lines().len(),
            forall|i: int| 0 <= i < r@.len() ==> #[trigger] r@[i]@ == self.spec_lines()[i],
    {
        let mut out: Vec<String> = Vec::new();
        out.push(self.tag());
        match self {
            Command::Check | Command::Reset => {},
            Command::Control(a) => out.push(a.text()),
            Command::DataRequest(a) => out.push(a.text()),
            Command::DataTransmitRequest(a) => out.push(a.text()),
        }
        out
    }
}


pub open spec fn is_digit(c: char) -> bool {
    '0' <= c && c <= '9'
}

/// Length of the run of decimal digits that opens `s`.
pub open spec fn digit_run(s: Seq<char>) -> nat
    decreases s.len(),
{
    if s.len() > 0 && is_digit(s[0]) {
        1 + digit_run(s.drop_first())
    } else {
        0
    }
}

/// A line as framed on the wire: `{index},{content}~`.
pub open spec fn framed(index: nat, content: Seq<char>) -> Seq<char> {
    nat_digits(index) + seq![','] + content + seq!['~']
}

/// A response with its frame removed: a leading run of digits, then one
/// leading comma, then one trailing `~`.
pub open spec fn trimmed(s: Seq<char>) -> Seq<char> {
    let a = s.skip(digit_run(s) as int);
    let b = if a.len() > 0 && a[0] == ',' { a.skip(1) } else { a };
    if b.len() > 0 && b.last() == '~' { b.drop_last() } else { b }
}

/// Frames one rendered line of a command for the wire.
pub fn frame_line(index: u8, content: &str) -> (r: String)
    ensures
        r@ == framed(index as nat, content@),
{
    let mut out = String::new();
    push_digits(&mut out, index);
    proof {
        reveal_strlit(",");
        reveal_strlit("~");
    }
    out.append(",");
    out.append(content);
    out.append("~");
    assert(out@ =~= framed(index as nat, content@));
    out
}

proof fn lemma_digit_run_step(s: Seq<char>, i: int)
    requires
        0 <= i < s.len(),
        is_digit(s[i]),
    ensures
        digit_run(s.skip(i)) == 1 + digit_run(s.skip(i + 1)),
{
    assert(s.skip(i).drop_first() =~= s.skip(i + 1));
}

/// Removes the frame from a response (see `trimmed`).
pub fn trim_response(response: &str) -> (r: String)
    ensures
        r@ == trimmed(response@),
{
    let ghost s = response@;
    let n = response.unicode_len();
    let mut i: usize = 0;
    assert(s.skip(0) =~= s);
    while i < n && ('0' <= response.get_char(i) && response.get_char(i) <= '9')
        invariant
            n == s.len(),
            s == response@,
            i <= n,
            digit_run(s) == i + digit_run(s.skip(i as int)),
        decreases n - i,
    {
        proof {
            lemma_digit_run_step(s, i as int);
        }
        i = i + 1;
    }
    proof {
        if i < n {
            assert(s.skip(i as int)[0] == s[i as int]);
        }
    }
    let mut start: usize = i;
    if start < n && response.get_char(start) == ',' {
        start = start + 1;
    }
    let mut end: usize = n;
    if end > start && response.get_char(end - 1) == '~' {
        end = end - 1;
    }
    let r = String::from_str(response.substring_char(start, end));
    proof {
        let a = s.skip(digit_run(s) as int);
        let b = if a.len() > 0 && a[0] == ',' { a.skip(1) } else { a };
        assert(b =~= s.subrange(start as int, n as int));
        assert(r@ =~= trimmed(s));
    }
    r
}

proof fn lemma_digits_are_digits(n: nat)
    ensures
        forall|j: int| 0 <= j < nat_digits(n).len() ==> is_digit(#[trigger] nat_digits(n)[j]),
    decreases n,
{
    if n >= 10 {
        lemma_digits_are_digits(n / 10);
        let p = nat_digits(n / 10);
        assert(is_digit(digit_char((n % 10) as int)));
        assert forall|j: int| 0 <= j < nat_digits(n).len() implies is_digit(#[trigger] nat_digits(n)[j]) by {
            if j < p.len() {
                assert(nat_digits(n)[j] == p[j]);
            }
        }
    } else {
        assert(is_digit(digit_char(n as int)));
    }
}

proof fn lemma_digit_run_prefix(d: Seq<char>, rest: Seq<char>)
    requires
        forall|j: int| 0 <= j < d.len() ==> is_digit(#[trigger] d[j]),
        rest.len() > 0,
        !is_digit(rest[0]),
    ensures
        digit_run(d + rest) == d.len(),
    decreases d.len(),
{
    if d.len() > 0 {
        assert((d + rest).drop_first() =~= d.drop_first() + rest);
        lemma_digit_run_prefix(d.drop_first(), rest);
    } else {
        assert(d + rest =~= rest);
    }
}

/// Trimming a framed line gives back exactly the line that was framed.
pub proof fn lemma_trim_framed(index: nat, content: Seq<char>)
    ensures
        trimmed(framed(index, content)) == content,
{
    let d = nat_digits(index);
    let rest = seq![','] + content + seq!['~'];
    lemma_digits_are_digits(index);
    lemma_digit_run_prefix(d, rest);
    assert(framed(index, content) =~= d + rest);
    assert((d + rest).skip(d.len() as int) =~= rest);
    assert(rest.skip(1) =~= content + seq!['~']);
    assert((content + seq!['~']).drop_last() =~= content);
}

} // verus!
