//! Response checksum validation: which responses are validated, and against
//! which checksum that the service sent.

use crate::checksum_algorithms::{
    algorithm_named, algorithms_in_priority_order, base64_decoded, decode_base64, header_name,
    header_of, parse_algorithm, ChecksumAlgorithm,
};
use crate::config_bag::{ConfigBag, ConfigLayer, Load, MissingConfiguration, Persist};
use crate::headers::{
    bytes_of, eq_ignore_ascii_case, first_value, same_ignoring_case, Header, Headers,
};
use crate::layers::{layered, lookup, with_point, LayerView};
use crate::value::{ConfigValue, Value};
use vstd::prelude::*;

verus! {

/// The kind under which a request's layer records whether the caller asked
/// for validation of the response.
pub const RESPONSE_CHECKSUM_STATE: u64 = 0x7265_7370_636b_7374;

/// What the stage before serialization leaves for the stage before
/// deserialization.
#[derive(Debug, Clone, Copy, PartialEq, Eq)]
pub struct ResponseChecksumInterceptorState {
    /// Whether the caller asked for the response to be validated.
    pub validation_enabled: bool,
}

impl ResponseChecksumInterceptorState {
    /// The chain after the state was written into the head of `layers`.
    pub open spec fn persisted(self, layers: Seq<LayerView>) -> Seq<LayerView> {
        with_point(
            layers,
            RESPONSE_CHECKSUM_STATE,
            Value::Assigned(ConfigValue::Bool(self.validation_enabled)),
        )
    }

    /// What `load` makes of a chain. The state is required: a chain without
    /// a boolean under its kind is reported as missing it.
    pub open spec fn loaded(layers: Seq<LayerView>) -> Result<Option<Self>, MissingConfiguration> {
        match lookup(layers, RESPONSE_CHECKSUM_STATE) {
            Some(ConfigValue::Bool(validation_enabled)) => Ok(
                Some(ResponseChecksumInterceptorState { validation_enabled }),
            ),
            _ => Err(MissingConfiguration { kind: RESPONSE_CHECKSUM_STATE }),
        }
    }

    /// The state comes back as it was written: persisted into a new layer on
    /// top of any chain and loaded again, it is the same state.
    pub proof fn lemma_round_trip(self, below: Seq<LayerView>)
        ensures
            Self::loaded(self.persisted(layered("ResponseChecksumInterceptor", below))) == Ok::<
                Option<Self>,
                MissingConfiguration,
            >(Some(self)),
    {
    }
}

impl Persist for ResponseChecksumInterceptorState {
    fn layer_name(&self) -> (name: &'static str)
        ensures
            name == "ResponseChecksumInterceptor",
    {
        "ResponseChecksumInterceptor"
    }

    fn persist(&self, layer: &mut ConfigBag)
        ensures
            final(layer)@ == self.persisted(old(layer)@),
    {
        layer.put::<RESPONSE_CHECKSUM_STATE>(ConfigValue::Bool(self.validation_enabled));
    }
}

impl Load for ResponseChecksumInterceptorState {
    fn load(bag: &ConfigBag) -> (value: Result<Option<Self>, MissingConfiguration>)
        ensures
            value == Self::loaded(bag@),
    {
        match bag.get::<RESPONSE_CHECKSUM_STATE>() {
            Some(ConfigValue::Bool(validation_enabled)) => Ok(
                Some(ResponseChecksumInterceptorState { validation_enabled: *validation_enabled }),
            ),
            _ => Err(MissingConfiguration { kind: RESPONSE_CHECKSUM_STATE }),
        }
    }
}

impl ConfigLayer for ResponseChecksumInterceptorState {

}

/// Decides, for one operation, whether and against what its responses are validated.
pub struct ResponseChecksumInterceptor<VE> {
    response_algorithms: &'static [&'static str],
    validation_enabled: VE,
}

impl<VE> ResponseChecksumInterceptor<VE> {
    /// The names of the checksum algorithms that the operation's responses may use.
    pub closed spec fn algorithms(&self) -> Seq<&'static str> {
        self.response_algorithms@
    }

    /// The test that tells from a request's input whether the caller asked for validation.
    pub closed spec fn enabled_by(&self) -> VE {
        self.validation_enabled
    }

    /// An interceptor for an operation whose responses may carry a checksum
    /// of one of `response_algorithms`.
    pub fn new(response_algorithms: &'static [&'static str], validation_enabled: VE) -> (interceptor:
        Self)
        ensures
            interceptor.algorithms() == response_algorithms@,
            interceptor.enabled_by() == validation_enabled,
    {
        Self { response_algorithms, validation_enabled }
    }

    /// The interceptor's name.
    pub fn name(&self) -> (name: &'static str)
        ensures
            name == "ResponseChecksumInterceptor",
    {
        "ResponseChecksumInterceptor"
    }

    /// Before the request is serialized: asks the test whether `input` wants
    /// its response validated and records the answer in a layer of its own
    /// on top of `cfg`.
    pub fn modify_before_serialization<Input>(&self, input: &Input, cfg: ConfigBag) -> (layered_cfg:
        ConfigBag) where VE: Fn(&Input) -> bool
        requires
            call_requires(self.enabled_by(), (input,)),
        ensures
            exists|validation_enabled: bool|
                #[trigger] call_ensures(self.enabled_by(), (input,), validation_enabled)
                    && layered_cfg@ == (ResponseChecksumInterceptorState {
                    validation_enabled,
                }).persisted(layered("ResponseChecksumInterceptor", cfg@)),
    {
        let validation_enabled = (self.validation_enabled)(input);
        cfg.with(ResponseChecksumInterceptorState { validation_enabled })
    }

    /// Before the response is deserialized: the checksum to validate its
    /// body against, or `None` where the body is left as it is. The state
    /// that `modify_before_serialization` recorded is required.
    pub fn modify_before_deserialization(&self, headers: &Headers, cfg: &ConfigBag) -> (action:
        Result<Option<(ChecksumAlgorithm, Vec<u8>)>, MissingConfiguration>)
        ensures
            match ResponseChecksumInterceptorState::loaded(cfg@) {
                Err(missing) => action == Err::<
                    Option<(ChecksumAlgorithm, Vec<u8>)>,
                    MissingConfiguration,
                >(missing),
                Ok(None) => action is Ok && action.unwrap() is None,
                Ok(Some(state)) => action is Ok && checksum_view(action.unwrap()) == if validates(
                    state.validation_enabled,
                    preference_of(lookup(cfg@, RESPONSE_CHECKSUM_VALIDATION)),
                ) {
                    precalculated_checksum(headers@, self.algorithms(), priority_order())
                } else {
                    None
                },
            },
    {
        let state = match ResponseChecksumInterceptorState::load(cfg) {
            Ok(Some(state)) => state,
            Ok(None) => {
                return Ok(None);
            },
            Err(missing) => {
                return Err(missing);
            },
        };
        // This value is set by the user to indicate their preference.
        let response_checksum_validation = ResponseChecksumValidation::from_entry(
            cfg.get::<RESPONSE_CHECKSUM_VALIDATION>(),
        );
        if validation_enabled(state.validation_enabled, response_checksum_validation) {
            Ok(check_headers_for_precalculated_checksum(headers, self.response_algorithms))
        } else {
            Ok(None)
        }
    }
}

/// The kind under which a bag holds the caller's preference for the
/// validation of responses, as the text "when_supported" or "when_required".
pub const RESPONSE_CHECKSUM_VALIDATION: u64 = 0x7265_7370_636b_7666;

/// When the caller wants responses validated.
#[derive(Debug, Clone, Copy, PartialEq, Eq, Structural)]
pub enum ResponseChecksumValidation {
    /// Whenever the operation supports it.
    WhenSupported,
    /// Only where the operation requires it.
    WhenRequired,
    /// A preference that is not known here. It counts as `WhenSupported`.
    Unrecognized,
}

/// The preference that a configuration entry states. No entry is the
/// default, `WhenSupported`; an entry that is neither of the two texts is
/// not recognized.
pub open spec fn preference_of(entry: Option<ConfigValue>) -> ResponseChecksumValidation {
    match entry {
        None => ResponseChecksumValidation::WhenSupported,
        Some(ConfigValue::Text(text)) => if same_ignoring_case(
            bytes_of(text@),
            bytes_of("when_supported"@),
        ) {
            ResponseChecksumValidation::WhenSupported
        } else if same_ignoring_case(bytes_of(text@), bytes_of("when_required"@)) {
            ResponseChecksumValidation::WhenRequired
        } else {
            ResponseChecksumValidation::Unrecognized
        },
        Some(_) => ResponseChecksumValidation::Unrecognized,
    }
}

/// Whether a response is validated: always where the caller asked for it
/// with the request, and else unless the preference is `WhenRequired`. A
/// preference that is not recognized validates.
pub open spec fn validates(requested: bool, preference: ResponseChecksumValidation) -> bool {
    requested || preference != ResponseChecksumValidation::WhenRequired
}

impl ResponseChecksumValidation {
    /// Reads the preference from a configuration entry.
    pub fn from_entry(entry: Option<&ConfigValue>) -> (preference: Self)
        ensures
            preference == preference_of(
                match entry {
                    Some(value) => Some(*value),
                    None => None,
                },
            ),
    {
        match entry {
            None => ResponseChecksumValidation::WhenSupported,
            Some(ConfigValue::Text(text)) => if eq_ignore_ascii_case(
                text.as_str(),
                "when_supported",
            ) {
                ResponseChecksumValidation::WhenSupported
            } else if eq_ignore_ascii_case(text.as_str(), "when_required") {
                ResponseChecksumValidation::WhenRequired
            } else {
                ResponseChecksumValidation::Unrecognized
            },
            Some(_) => ResponseChecksumValidation::Unrecognized,
        }
    }
}

/// Whether a response is validated, given what the request asked for and
/// what the caller prefers.
pub fn validation_enabled(requested: bool, preference: ResponseChecksumValidation) -> (enabled:
    bool)
    ensures
        enabled == validates(requested, preference),
{
    if !requested {
        match preference {
            ResponseChecksumValidation::WhenRequired => false,
            _ => true,
        }
    } else {
        true
    }
}

/// Whether `name` is one of `names`, whatever the case of its letters.
pub open spec fn listed(names: Seq<&str>, name: Seq<char>) -> bool {
    exists|i: int|
        0 <= i < names.len() && same_ignoring_case(bytes_of(name), bytes_of(#[trigger] names[i]@))
}

/// What a checksum header gives to validate against: nothing for a
/// part-level checksum or for a value that is not base64, else the algorithm
/// and the bytes that the value stands for.
pub open spec fn checksum_of_header(algorithm: ChecksumAlgorithm, value: Seq<char>) -> Option<
    (ChecksumAlgorithm, Seq<u8>),
> {
    if part_level(value) {
        None
    } else {
        match base64_decoded(value) {
            Some(bytes) => Some((algorithm, bytes)),
            None => None,
        }
    }
}

/// The checksum to validate a response against. The algorithms of
/// `priority` are tried in order; the first that the operation lists, that
/// is known by its name and whose header the response carries decides.
pub open spec fn precalculated_checksum(
    headers: Seq<Header>,
    response_algorithms: Seq<&str>,
    priority: Seq<Seq<char>>,
) -> Option<(ChecksumAlgorithm, Seq<u8>)>
    decreases priority.len(),
{
    if priority.len() == 0 {
        None
    } else {
        let name = priority[0];
        let algorithm = algorithm_named(bytes_of(name));
        if listed(response_algorithms, name) && algorithm is Some && first_value(
            headers,
            bytes_of(header_of(algorithm.unwrap())),
        ) is Some {
            checksum_of_header(
                algorithm.unwrap(),
                first_value(headers, bytes_of(header_of(algorithm.unwrap()))).unwrap()@,
            )
        } else {
            precalculated_checksum(headers, response_algorithms, priority.skip(1))
        }
    }
}

/// A found checksum with its bytes as a sequence.
pub open spec fn checksum_view(found: Option<(ChecksumAlgorithm, Vec<u8>)>) -> Option<
    (ChecksumAlgorithm, Seq<u8>),
> {
    match found {
        Some((algorithm, bytes)) => Some((algorithm, bytes@)),
        None => None,
    }
}

/// The names of the algorithms in the order in which they are tried.
pub open spec fn priority_order() -> Seq<Seq<char>> {
    seq!["crc64nvme"@, "crc32c"@, "crc32"@, "sha1"@, "sha256"@]
}

/// Whether `name` is one of `names`, whatever the case of its letters.
pub fn is_listed(names: &[&str], name: &str) -> (found: bool)
    ensures
        found == listed(names@, name@),
{
    let mut i: usize = 0;
    while i < names.len()
        invariant
            i <= names.len(),
            forall|j: int| 0 <= j < i ==> !same_ignoring_case(bytes_of(name@), bytes_of(names@[j]@)),
        decreases names.len() - i,
    {
        if eq_ignore_ascii_case(name, names[i]) {
            return true;
        }
        i += 1;
    }
    false
}

/// What a decoded checksum header gives to validate against.
pub fn accept_decoded(algorithm: ChecksumAlgorithm, decoded: Option<Vec<u8>>) -> (found: Option<
    (ChecksumAlgorithm, Vec<u8>),
>)
    ensures
        found == match decoded {
            Some(bytes) => Some((algorithm, bytes)),
            None => None,
        },
{
    match decoded {
        Some(bytes) => Some((algorithm, bytes)),
        None => None,
    }
}

/// What the checksum header of `algorithm` with the value `value` gives to
/// validate against.
pub fn checksum_from_header(algorithm: ChecksumAlgorithm, value: &str) -> (found: Option<
    (ChecksumAlgorithm, Vec<u8>),
>)
    ensures
        checksum_view(found) == checksum_of_header(algorithm, value@),
{
    // A checksum of parts is not the checksum of the body and cannot be validated against.
    if is_part_level_checksum(value) {
        return None;
    }
    accept_decoded(algorithm, decode_base64(value))
}

/// Given the headers of a response, the checksum that the service sent with
/// it, if any. Where several checksum headers are set, the one that is
/// fastest to compute is chosen.
pub fn check_headers_for_precalculated_checksum(
    headers: &Headers,
    response_algorithms: &[&str],
) -> (found: Option<(ChecksumAlgorithm, Vec<u8>)>)
    ensures
        checksum_view(found) == precalculated_checksum(
            headers@,
            response_algorithms@,
            priority_order(),
        ),
{
    let priority = algorithms_in_priority_order();
    let ghost order = priority_order();
    let mut i: usize = 0;
    assert(order.skip(0) =~= order);
    while i < priority.len()
        invariant
            i <= priority.len(),
            order == priority_order(),
            priority@.len() == order.len(),
            forall|j: int| 0 <= j < order.len() ==> priority@[j]@ == order[j],
            precalculated_checksum(headers@, response_algorithms@, order)
                == precalculated_checksum(headers@, response_algorithms@, order.skip(i as int)),
        decreases priority.len() - i,
    {
        let algo = priority[i];
        assert(order.skip(i as int)[0] == order[i as int]);
        assert(order.skip(i as int).skip(1) =~= order.skip(i as int + 1));
        if is_listed(response_algorithms, algo) {
            if let Some(checksum_algorithm) = parse_algorithm(algo) {
                if let Some(value) = headers.get(header_name(checksum_algorithm)) {
                    return checksum_from_header(checksum_algorithm, value);
                }
            }
        }
        i += 1;
    }
    None
}

/// Whether `c` is a decimal digit.
pub open spec fn is_digit(c: char) -> bool {
    '0' <= c <= '9'
}

/// Whether `c` can stand in the part count that ends a part-level checksum.
pub open spec fn is_count_char(c: char) -> bool {
    is_digit(c) || c == '-'
}

/// Where the longest run of digits and dashes that ends `s` begins.
pub open spec fn count_start(s: Seq<char>) -> int
    decreases s.len(),
{
    if s.len() == 0 || !is_count_char(s.last()) {
        s.len() as int
    } else {
        count_start(s.drop_last())
    }
}

/// A checksum is part-level if the longest run of digits and dashes that
/// ends it holds exactly one dash and at least one digit.
pub open spec fn part_level(s: Seq<char>) -> bool {
    let start = count_start(s);
    &&& exists|d: int|
        start <= d < s.len() && s[d] == '-' && forall|e: int|
            start <= e < s.len() && s[e] == '-' ==> e == d
    &&& exists|n: int| start <= n < s.len() && is_digit(s[n])
}

/// The run that `count_start` finds lies within the text.
pub proof fn lemma_count_start_bounds(s: Seq<char>)
    ensures
        0 <= count_start(s) <= s.len(),
    decreases s.len(),
{
    if s.len() > 0 && is_count_char(s.last()) {
        lemma_count_start_bounds(s.drop_last());
    }
}

/// The run that `count_start` finds begins at `i` if every character from
/// `i` on is a digit or a dash and the character before `i`, if there is
/// one, is neither.
pub proof fn lemma_count_start_is(s: Seq<char>, i: int)
    requires
        0 <= i <= s.len(),
        forall|j: int| i <= j < s.len() ==> is_count_char(s[j]),
        i > 0 ==> !is_count_char(s[i - 1]),
    ensures
        count_start(s) == i,
    decreases s.len(),
{
    if s.len() > i {
        lemma_count_start_is(s.drop_last(), i);
    }
}

/// The run that `count_start` finds begins at `i` or before if every
/// character from `i` on is a digit or a dash.
pub proof fn lemma_count_start_reaches(s: Seq<char>, i: int)
    requires
        0 <= i <= s.len(),
        forall|j: int| i <= j < s.len() ==> is_count_char(s[j]),
    ensures
        0 <= count_start(s) <= i,
    decreases s.len(),
{
    lemma_count_start_bounds(s);
    if s.len() > i {
        lemma_count_start_reaches(s.drop_last(), i);
    }
}

fn chars_of(text: &str) -> (chars: Vec<char>)
    ensures
        chars@ == text@,
{
    broadcast use vstd::string::group_string_axioms;

    let mut chars: Vec<char> = Vec::new();
    for c in it: text.chars()
        invariant
            chars@ == it.seq().take(it.index() as int),
            it.seq() == text@,
    {
        chars.push(c);
    }
    chars
}

/// Whether `checksum` is the checksum of an object that was uploaded in
/// parts: such a checksum ends in a dash and the number of parts.
pub fn is_part_level_checksum(checksum: &str) -> (found: bool)
    ensures
        found == part_level(checksum@),
{
    let chars = chars_of(checksum);
    let mut found_number = false;
    let mut found_dash = false;
    let ghost mut dash_at: int = 0;
    let mut i: usize = chars.len();
    while i > 0
        invariant_except_break
            forall|j: int| i <= j < chars@.len() ==> is_count_char(chars@[j]),
        invariant
            i <= chars.len(),
            chars@ == checksum@,
            found_number <==> exists|n: int| i <= n < chars@.len() && is_digit(chars@[n]),
            found_dash ==> i <= dash_at < chars@.len() && chars@[dash_at] == '-',
            found_dash ==> forall|e: int| i <= e < chars@.len() && chars@[e] == '-' ==> e == dash_at,
            !found_dash ==> forall|e: int| i <= e < chars@.len() ==> chars@[e] != '-',
        ensures
            forall|j: int| i <= j < chars@.len() ==> is_count_char(chars@[j]),
            i > 0 ==> !is_count_char(chars@[i - 1]),
        decreases i,
    {
        let ch = chars[i - 1];
        if '0' <= ch && ch <= '9' {
            found_number = true;
            i -= 1;
            continue ;
        }
        if ch == '-' {
            if found_dash {
                proof {
                    lemma_count_start_reaches(chars@, i - 1);
                }
                return false;
            }
            found_dash = true;
            proof {
                dash_at = i - 1;
            }
            i -= 1;
            continue ;
        }
        break ;
    }
    proof {
        lemma_count_start_is(chars@, i as int);
    }
    found_number && found_dash
}

} // verus!
