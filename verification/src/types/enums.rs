//! The enumerations of the REST API, each with the text that names its values
//! on the wire.
use vstd::prelude::*;
use crate::text::str_equals;
use crate::types::error::ConversionError;

verus! {

/// The kind of limit that a limit value sets.
#[derive(Clone, Copy, Debug, Eq, Hash, Ord, PartialEq, PartialOrd, Structural)]
pub enum BaseLimitValueName {
    Cpu,
    Mem,
    CertificateCount,
    SecretCount,
    TopicCount,
    PartitionCount,
    ConsumerRate,
    ProducerRate,
    RequestRate,
}

impl BaseLimitValueName {
    /// The text that names the value on the wire.
    pub open spec fn wire(self) -> Seq<char> {
        match self {
            BaseLimitValueName::Cpu => "cpu"@,
            BaseLimitValueName::Mem => "mem"@,
            BaseLimitValueName::CertificateCount => "certificateCount"@,
            BaseLimitValueName::SecretCount => "secretCount"@,
            BaseLimitValueName::TopicCount => "topicCount"@,
            BaseLimitValueName::PartitionCount => "partitionCount"@,
            BaseLimitValueName::ConsumerRate => "consumerRate"@,
            BaseLimitValueName::ProducerRate => "producerRate"@,
            BaseLimitValueName::RequestRate => "requestRate"@,
        }
    }

    /// The value that a text names, if it names one.
    pub open spec fn from_wire(s: Seq<char>) -> Result<BaseLimitValueName, ConversionError> {
        if s == "cpu"@ {
            Ok(BaseLimitValueName::Cpu)
        } else if s == "mem"@ {
            Ok(BaseLimitValueName::Mem)
        } else if s == "certificateCount"@ {
            Ok(BaseLimitValueName::CertificateCount)
        } else if s == "secretCount"@ {
            Ok(BaseLimitValueName::SecretCount)
        } else if s == "topicCount"@ {
            Ok(BaseLimitValueName::TopicCount)
        } else if s == "partitionCount"@ {
            Ok(BaseLimitValueName::PartitionCount)
        } else if s == "consumerRate"@ {
            Ok(BaseLimitValueName::ConsumerRate)
        } else if s == "producerRate"@ {
            Ok(BaseLimitValueName::ProducerRate)
        } else if s == "requestRate"@ {
            Ok(BaseLimitValueName::RequestRate)
        } else {
            Err(ConversionError::from_static("invalid value"))
        }
    }

    /// The text that names the value on the wire.
    pub fn to_string(&self) -> (res: String)
        ensures
            res@ == self.wire(),
    {
        match *self {
            BaseLimitValueName::Cpu => String::from_str("cpu"),
            BaseLimitValueName::Mem => String::from_str("mem"),
            BaseLimitValueName::CertificateCount => String::from_str("certificateCount"),
            BaseLimitValueName::SecretCount => String::from_str("secretCount"),
            BaseLimitValueName::TopicCount => String::from_str("topicCount"),
            BaseLimitValueName::PartitionCount => String::from_str("partitionCount"),
            BaseLimitValueName::ConsumerRate => String::from_str("consumerRate"),
            BaseLimitValueName::ProducerRate => String::from_str("producerRate"),
            BaseLimitValueName::RequestRate => String::from_str("requestRate"),
        }
    }

    /// The value that `value` names; any other text is refused.
    pub fn from_str(value: &str) -> (res: Result<BaseLimitValueName, ConversionError>)
        ensures
            res == BaseLimitValueName::from_wire(value@),
    {
        if str_equals(value, "cpu") {
            Ok(BaseLimitValueName::Cpu)
        } else if str_equals(value, "mem") {
            Ok(BaseLimitValueName::Mem)
        } else if str_equals(value, "certificateCount") {
            Ok(BaseLimitValueName::CertificateCount)
        } else if str_equals(value, "secretCount") {
            Ok(BaseLimitValueName::SecretCount)
        } else if str_equals(value, "topicCount") {
            Ok(BaseLimitValueName::TopicCount)
        } else if str_equals(value, "partitionCount") {
            Ok(BaseLimitValueName::PartitionCount)
        } else if str_equals(value, "consumerRate") {
            Ok(BaseLimitValueName::ConsumerRate)
        } else if str_equals(value, "producerRate") {
            Ok(BaseLimitValueName::ProducerRate)
        } else if str_equals(value, "requestRate") {
            Ok(BaseLimitValueName::RequestRate)
        } else {
            Err(ConversionError::from("invalid value"))
        }
    }

    /// Reading back the wire name of a value gives that value.
    pub proof fn lemma_wire_round_trip(self)
        ensures
            BaseLimitValueName::from_wire(self.wire()) == Ok::<BaseLimitValueName, ConversionError>(self),
    {
        reveal_strlit("cpu");
        reveal_strlit("mem");
        reveal_strlit("certificateCount");
        reveal_strlit("secretCount");
        reveal_strlit("topicCount");
        reveal_strlit("partitionCount");
        reveal_strlit("consumerRate");
        reveal_strlit("producerRate");
        reveal_strlit("requestRate");
        assert("cpu"@.len() == 3);
        assert("mem"@.len() == 3);
        assert("certificateCount"@.len() == 16);
        assert("secretCount"@.len() == 11);
        assert("topicCount"@.len() == 10);
        assert("partitionCount"@.len() == 14);
        assert("consumerRate"@.len() == 12);
        assert("producerRate"@.len() == 12);
        assert("requestRate"@.len() == 11);
        assert("mem"@[0] != "cpu"@[0]);
        assert("producerRate"@[0] != "consumerRate"@[0]);
        assert("requestRate"@[0] != "secretCount"@[0]);
    }

    /// A text that is read as a value is that value's wire name.
    pub proof fn lemma_wire_names_only(s: Seq<char>)
        ensures
            BaseLimitValueName::from_wire(s) matches Ok(v) ==> v.wire() == s,
    {
    }
}

impl From<&BaseLimitValueName> for BaseLimitValueName {
    fn from(value: &BaseLimitValueName) -> (res: Self) {
        *value
    }
}

impl vstd::std_specs::convert::FromSpecImpl<&BaseLimitValueName> for BaseLimitValueName {
    open spec fn obeys_from_spec() -> bool {
        true
    }

    open spec fn from_spec(v: &BaseLimitValueName) -> BaseLimitValueName {
        *v
    }
}

impl std::str::FromStr for BaseLimitValueName {
    type Err = ConversionError;

    fn from_str(value: &str) -> (res: Result<Self, ConversionError>)
        ensures
            res == BaseLimitValueName::from_wire(value@),
    {
        BaseLimitValueName::from_str(value)
    }
}

impl std::convert::TryFrom<&str> for BaseLimitValueName {
    type Error = ConversionError;

    fn try_from(value: &str) -> (res: Result<Self, ConversionError>) {
        BaseLimitValueName::from_str(value)
    }
}

impl vstd::std_specs::convert::TryFromSpecImpl<&str> for BaseLimitValueName {
    open spec fn obeys_try_from_spec() -> bool {
        true
    }

    open spec fn try_from_spec(v: &str) -> Result<Self, ConversionError> {
        BaseLimitValueName::from_wire(v@)
    }
}

impl std::convert::TryFrom<&String> for BaseLimitValueName {
    type Error = ConversionError;

    fn try_from(value: &String) -> (res: Result<Self, ConversionError>) {
        BaseLimitValueName::from_str(value.as_str())
    }
}

impl vstd::std_specs::convert::TryFromSpecImpl<&String> for BaseLimitValueName {
    open spec fn obeys_try_from_spec() -> bool {
        true
    }

    open spec fn try_from_spec(v: &String) -> Result<Self, ConversionError> {
        BaseLimitValueName::from_wire(v@)
    }
}

impl std::convert::TryFrom<String> for BaseLimitValueName {
    type Error = ConversionError;

    fn try_from(value: String) -> (res: Result<Self, ConversionError>) {
        BaseLimitValueName::from_str(value.as_str())
    }
}

impl vstd::std_specs::convert::TryFromSpecImpl<String> for BaseLimitValueName {
    open spec fn obeys_try_from_spec() -> bool {
        true
    }

    open spec fn try_from_spec(v: String) -> Result<Self, ConversionError> {
        BaseLimitValueName::from_wire(v@)
    }
}

/// The kind of limit named in the path of a limit request.
#[derive(Clone, Copy, Debug, Eq, Hash, Ord, PartialEq, PartialOrd, Structural)]
pub enum GetManageByManagerTenantByTenantLimitByKindKind {
    Cpu,
    Mem,
    Certificatecount,
    Secretcount,
    Topiccount,
    Partitioncount,
    Consumerrate,
    Producerrate,
    Requestrate,
}

impl GetManageByManagerTenantByTenantLimitByKindKind {
    /// The text that names the value on the wire.
    pub open spec fn wire(self) -> Seq<char> {
        match self {
            GetManageByManagerTenantByTenantLimitByKindKind::Cpu => "cpu"@,
            GetManageByManagerTenantByTenantLimitByKindKind::Mem => "mem"@,
            GetManageByManagerTenantByTenantLimitByKindKind::Certificatecount => "certificatecount"@,
            GetManageByManagerTenantByTenantLimitByKindKind::Secretcount => "secretcount"@,
            GetManageByManagerTenantByTenantLimitByKindKind::Topiccount => "topiccount"@,
            GetManageByManagerTenantByTenantLimitByKindKind::Partitioncount => "partitioncount"@,
            GetManageByManagerTenantByTenantLimitByKindKind::Consumerrate => "consumerrate"@,
            GetManageByManagerTenantByTenantLimitByKindKind::Producerrate => "producerrate"@,
            GetManageByManagerTenantByTenantLimitByKindKind::Requestrate => "requestrate"@,
        }
    }

    /// The value that a text names, if it names one.
    pub open spec fn from_wire(s: Seq<char>) -> Result<GetManageByManagerTenantByTenantLimitByKindKind, ConversionError> {
        if s == "cpu"@ {
            Ok(GetManageByManagerTenantByTenantLimitByKindKind::Cpu)
        } else if s == "mem"@ {
            Ok(GetManageByManagerTenantByTenantLimitByKindKind::Mem)
        } else if s == "certificatecount"@ {
            Ok(GetManageByManagerTenantByTenantLimitByKindKind::Certificatecount)
        } else if s == "secretcount"@ {
            Ok(GetManageByManagerTenantByTenantLimitByKindKind::Secretcount)
        } else if s == "topiccount"@ {
            Ok(GetManageByManagerTenantByTenantLimitByKindKind::Topiccount)
        } else if s == "partitioncount"@ {
            Ok(GetManageByManagerTenantByTenantLimitByKindKind::Partitioncount)
        } else if s == "consumerrate"@ {
            Ok(GetManageByManagerTenantByTenantLimitByKindKind::Consumerrate)
        } else if s == "producerrate"@ {
            Ok(GetManageByManagerTenantByTenantLimitByKindKind::Producerrate)
        } else if s == "requestrate"@ {
            Ok(GetManageByManagerTenantByTenantLimitByKindKind::Requestrate)
        } else {
            Err(ConversionError::from_static("invalid value"))
        }
    }

    /// The text that names the value on the wire.
    pub fn to_string(&self) -> (res: String)
        ensures
            res@ == self.wire(),
    {
        match *self {
            GetManageByManagerTenantByTenantLimitByKindKind::Cpu => String::from_str("cpu"),
            GetManageByManagerTenantByTenantLimitByKindKind::Mem => String::from_str("mem"),
            GetManageByManagerTenantByTenantLimitByKindKind::Certificatecount => String::from_str("certificatecount"),
            GetManageByManagerTenantByTenantLimitByKindKind::Secretcount => String::from_str("secretcount"),
            GetManageByManagerTenantByTenantLimitByKindKind::Topiccount => String::from_str("topiccount"),
            GetManageByManagerTenantByTenantLimitByKindKind::Partitioncount => String::from_str("partitioncount"),
            GetManageByManagerTenantByTenantLimitByKindKind::Consumerrate => String::from_str("consumerrate"),
            GetManageByManagerTenantByTenantLimitByKindKind::Producerrate => String::from_str("producerrate"),
            GetManageByManagerTenantByTenantLimitByKindKind::Requestrate => String::from_str("requestrate"),
        }
    }

    /// The value that `value` names; any other text is refused.
    pub fn from_str(value: &str) -> (res: Result<GetManageByManagerTenantByTenantLimitByKindKind, ConversionError>)
        ensures
            res == GetManageByManagerTenantByTenantLimitByKindKind::from_wire(value@),
    {
        if str_equals(value, "cpu") {
            Ok(GetManageByManagerTenantByTenantLimitByKindKind::Cpu)
        } else if str_equals(value, "mem") {
            Ok(GetManageByManagerTenantByTenantLimitByKindKind::Mem)
        } else if str_equals(value, "certificatecount") {
            Ok(GetManageByManagerTenantByTenantLimitByKindKind::Certificatecount)
        } else if str_equals(value, "secretcount") {
            Ok(GetManageByManagerTenantByTenantLimitByKindKind::Secretcount)
        } else if str_equals(value, "topiccount") {
            Ok(GetManageByManagerTenantByTenantLimitByKindKind::Topiccount)
        } else if str_equals(value, "partitioncount") {
            Ok(GetManageByManagerTenantByTenantLimitByKindKind::Partitioncount)
        } else if str_equals(value, "consumerrate") {
            Ok(GetManageByManagerTenantByTenantLimitByKindKind::Consumerrate)
        } else if str_equals(value, "producerrate") {
            Ok(GetManageByManagerTenantByTenantLimitByKindKind::Producerrate)
        } else if str_equals(value, "requestrate") {
            Ok(GetManageByManagerTenantByTenantLimitByKindKind::Requestrate)
        } else {
            Err(ConversionError::from("invalid value"))
        }
    }

    /// Reading back the wire name of a value gives that value.
    pub proof fn lemma_wire_round_trip(self)
        ensures
            GetManageByManagerTenantByTenantLimitByKindKind::from_wire(self.wire()) == Ok::<GetManageByManagerTenantByTenantLimitByKindKind, ConversionError>(self),
    {
        reveal_strlit("cpu");
        reveal_strlit("mem");
        reveal_strlit("certificatecount");
        reveal_strlit("secretcount");
        reveal_strlit("topiccount");
        reveal_strlit("partitioncount");
        reveal_strlit("consumerrate");
        reveal_strlit("producerrate");
        reveal_strlit("requestrate");
        assert("cpu"@.len() == 3);
        assert("mem"@.len() == 3);
        assert("certificatecount"@.len() == 16);
        assert("secretcount"@.len() == 11);
        assert("topiccount"@.len() == 10);
        assert("partitioncount"@.len() == 14);
        assert("consumerrate"@.len() == 12);
        assert("producerrate"@.len() == 12);
        assert("requestrate"@.len() == 11);
        assert("mem"@[0] != "cpu"@[0]);
        assert("producerrate"@[0] != "consumerrate"@[0]);
        assert("requestrate"@[0] != "secretcount"@[0]);
    }

    /// A text that is read as a value is that value's wire name.
    pub proof fn lemma_wire_names_only(s: Seq<char>)
        ensures
            GetManageByManagerTenantByTenantLimitByKindKind::from_wire(s) matches Ok(v) ==> v.wire() == s,
    {
    }
}

impl From<&GetManageByManagerTenantByTenantLimitByKindKind> for GetManageByManagerTenantByTenantLimitByKindKind {
    fn from(value: &GetManageByManagerTenantByTenantLimitByKindKind) -> (res: Self) {
        *value
    }
}

impl vstd::std_specs::convert::FromSpecImpl<&GetManageByManagerTenantByTenantLimitByKindKind> for GetManageByManagerTenantByTenantLimitByKindKind {
    open spec fn obeys_from_spec() -> bool {
        true
    }

    open spec fn from_spec(v: &GetManageByManagerTenantByTenantLimitByKindKind) -> GetManageByManagerTenantByTenantLimitByKindKind {
        *v
    }
}

impl std::str::FromStr for GetManageByManagerTenantByTenantLimitByKindKind {
    type Err = ConversionError;

    fn from_str(value: &str) -> (res: Result<Self, ConversionError>)
        ensures
            res == GetManageByManagerTenantByTenantLimitByKindKind::from_wire(value@),
    {
        GetManageByManagerTenantByTenantLimitByKindKind::from_str(value)
    }
}

impl std::convert::TryFrom<&str> for GetManageByManagerTenantByTenantLimitByKindKind {
    type Error = ConversionError;

    fn try_from(value: &str) -> (res: Result<Self, ConversionError>) {
        GetManageByManagerTenantByTenantLimitByKindKind::from_str(value)
    }
}

impl vstd::std_specs::convert::TryFromSpecImpl<&str> for GetManageByManagerTenantByTenantLimitByKindKind {
    open spec fn obeys_try_from_spec() -> bool {
        true
    }

    open spec fn try_from_spec(v: &str) -> Result<Self, ConversionError> {
        GetManageByManagerTenantByTenantLimitByKindKind::from_wire(v@)
    }
}

impl std::convert::TryFrom<&String> for GetManageByManagerTenantByTenantLimitByKindKind {
    type Error = ConversionError;

    fn try_from(value: &String) -> (res: Result<Self, ConversionError>) {
        GetManageByManagerTenantByTenantLimitByKindKind::from_str(value.as_str())
    }
}

impl vstd::std_specs::convert::TryFromSpecImpl<&String> for GetManageByManagerTenantByTenantLimitByKindKind {
    open spec fn obeys_try_from_spec() -> bool {
        true
    }

    open spec fn try_from_spec(v: &String) -> Result<Self, ConversionError> {
        GetManageByManagerTenantByTenantLimitByKindKind::from_wire(v@)
    }
}

impl std::convert::TryFrom<String> for GetManageByManagerTenantByTenantLimitByKindKind {
    type Error = ConversionError;

    fn try_from(value: String) -> (res: Result<Self, ConversionError>) {
        GetManageByManagerTenantByTenantLimitByKindKind::from_str(value.as_str())
    }
}

impl vstd::std_specs::convert::TryFromSpecImpl<String> for GetManageByManagerTenantByTenantLimitByKindKind {
    open spec fn obeys_try_from_spec() -> bool {
        true
    }

    open spec fn try_from_spec(v: String) -> Result<Self, ConversionError> {
        GetManageByManagerTenantByTenantLimitByKindKind::from_wire(v@)
    }
}

/// The protocol of a health check (http or https).
#[derive(Clone, Copy, Debug, Eq, Hash, Ord, PartialEq, PartialOrd, Structural)]
pub enum HealthCheckProtocol {
    Http,
    Https,
}

impl HealthCheckProtocol {
    /// The text that names the value on the wire.
    pub open spec fn wire(self) -> Seq<char> {
        match self {
            HealthCheckProtocol::Http => "http"@,
            HealthCheckProtocol::Https => "https"@,
        }
    }

    /// The value that a text names, if it names one.
    pub open spec fn from_wire(s: Seq<char>) -> Result<HealthCheckProtocol, ConversionError> {
        if s == "http"@ {
            Ok(HealthCheckProtocol::Http)
        } else if s == "https"@ {
            Ok(HealthCheckProtocol::Https)
        } else {
            Err(ConversionError::from_static("invalid value"))
        }
    }

    /// The text that names the value on the wire.
    pub fn to_string(&self) -> (res: String)
        ensures
            res@ == self.wire(),
    {
        match *self {
            HealthCheckProtocol::Http => String::from_str("http"),
            HealthCheckProtocol::Https => String::from_str("https"),
        }
    }

    /// The value that `value` names; any other text is refused.
    pub fn from_str(value: &str) -> (res: Result<HealthCheckProtocol, ConversionError>)
        ensures
            res == HealthCheckProtocol::from_wire(value@),
    {
        if str_equals(value, "http") {
            Ok(HealthCheckProtocol::Http)
        } else if str_equals(value, "https") {
            Ok(HealthCheckProtocol::Https)
        } else {
            Err(ConversionError::from("invalid value"))
        }
    }

    /// Reading back the wire name of a value gives that value.
    pub proof fn lemma_wire_round_trip(self)
        ensures
            HealthCheckProtocol::from_wire(self.wire()) == Ok::<HealthCheckProtocol, ConversionError>(self),
    {
        reveal_strlit("http");
        reveal_strlit("https");
        assert("http"@.len() == 4);
        assert("https"@.len() == 5);
    }

    /// A text that is read as a value is that value's wire name.
    pub proof fn lemma_wire_names_only(s: Seq<char>)
        ensures
            HealthCheckProtocol::from_wire(s) matches Ok(v) ==> v.wire() == s,
    {
    }
}

impl From<&HealthCheckProtocol> for HealthCheckProtocol {
    fn from(value: &HealthCheckProtocol) -> (res: Self) {
        *value
    }
}

impl vstd::std_specs::convert::FromSpecImpl<&HealthCheckProtocol> for HealthCheckProtocol {
    open spec fn obeys_from_spec() -> bool {
        true
    }

    open spec fn from_spec(v: &HealthCheckProtocol) -> HealthCheckProtocol {
        *v
    }
}

impl std::str::FromStr for HealthCheckProtocol {
    type Err = ConversionError;

    fn from_str(value: &str) -> (res: Result<Self, ConversionError>)
        ensures
            res == HealthCheckProtocol::from_wire(value@),
    {
        HealthCheckProtocol::from_str(value)
    }
}

impl std::convert::TryFrom<&str> for HealthCheckProtocol {
    type Error = ConversionError;

    fn try_from(value: &str) -> (res: Result<Self, ConversionError>) {
        HealthCheckProtocol::from_str(value)
    }
}

impl vstd::std_specs::convert::TryFromSpecImpl<&str> for HealthCheckProtocol {
    open spec fn obeys_try_from_spec() -> bool {
        true
    }

    open spec fn try_from_spec(v: &str) -> Result<Self, ConversionError> {
        HealthCheckProtocol::from_wire(v@)
    }
}

impl std::convert::TryFrom<&String> for HealthCheckProtocol {
    type Error = ConversionError;

    fn try_from(value: &String) -> (res: Result<Self, ConversionError>) {
        HealthCheckProtocol::from_str(value.as_str())
    }
}

impl vstd::std_specs::convert::TryFromSpecImpl<&String> for HealthCheckProtocol {
    open spec fn obeys_try_from_spec() -> bool {
        true
    }

    open spec fn try_from_spec(v: &String) -> Result<Self, ConversionError> {
        HealthCheckProtocol::from_wire(v@)
    }
}

impl std::convert::TryFrom<String> for HealthCheckProtocol {
    type Error = ConversionError;

    fn try_from(value: String) -> (res: Result<Self, ConversionError>) {
        HealthCheckProtocol::from_str(value.as_str())
    }
}

impl vstd::std_specs::convert::TryFromSpecImpl<String> for HealthCheckProtocol {
    open spec fn obeys_try_from_spec() -> bool {
        true
    }

    open spec fn try_from_spec(v: String) -> Result<Self, ConversionError> {
        HealthCheckProtocol::from_wire(v@)
    }
}

/// How a client certificate subject is matched: EXACT for an exact match, PATTERN for a pattern match.
#[derive(Clone, Copy, Debug, Eq, Hash, Ord, PartialEq, PartialOrd, Structural)]
pub enum KafkaProxyValidationSubjectType {
    Exact,
    Pattern,
}

impl KafkaProxyValidationSubjectType {
    /// The text that names the value on the wire.
    pub open spec fn wire(self) -> Seq<char> {
        match self {
            KafkaProxyValidationSubjectType::Exact => "EXACT"@,
            KafkaProxyValidationSubjectType::Pattern => "PATTERN"@,
        }
    }

    /// The value that a text names, if it names one.
    pub open spec fn from_wire(s: Seq<char>) -> Result<KafkaProxyValidationSubjectType, ConversionError> {
        if s == "EXACT"@ {
            Ok(KafkaProxyValidationSubjectType::Exact)
        } else if s == "PATTERN"@ {
            Ok(KafkaProxyValidationSubjectType::Pattern)
        } else {
            Err(ConversionError::from_static("invalid value"))
        }
    }

    /// The text that names the value on the wire.
    pub fn to_string(&self) -> (res: String)
        ensures
            res@ == self.wire(),
    {
        match *self {
            KafkaProxyValidationSubjectType::Exact => String::from_str("EXACT"),
            KafkaProxyValidationSubjectType::Pattern => String::from_str("PATTERN"),
        }
    }

    /// The value that `value` names; any other text is refused.
    pub fn from_str(value: &str) -> (res: Result<KafkaProxyValidationSubjectType, ConversionError>)
        ensures
            res == KafkaProxyValidationSubjectType::from_wire(value@),
    {
        if str_equals(value, "EXACT") {
            Ok(KafkaProxyValidationSubjectType::Exact)
        } else if str_equals(value, "PATTERN") {
            Ok(KafkaProxyValidationSubjectType::Pattern)
        } else {
            Err(ConversionError::from("invalid value"))
        }
    }

    /// Reading back the wire name of a value gives that value.
    pub proof fn lemma_wire_round_trip(self)
        ensures
            KafkaProxyValidationSubjectType::from_wire(self.wire()) == Ok::<KafkaProxyValidationSubjectType, ConversionError>(self),
    {
        reveal_strlit("EXACT");
        reveal_strlit("PATTERN");
        assert("EXACT"@.len() == 5);
        assert("PATTERN"@.len() == 7);
    }

    /// A text that is read as a value is that value's wire name.
    pub proof fn lemma_wire_names_only(s: Seq<char>)
        ensures
            KafkaProxyValidationSubjectType::from_wire(s) matches Ok(v) ==> v.wire() == s,
    {
    }
}

impl From<&KafkaProxyValidationSubjectType> for KafkaProxyValidationSubjectType {
    fn from(value: &KafkaProxyValidationSubjectType) -> (res: Self) {
        *value
    }
}

impl vstd::std_specs::convert::FromSpecImpl<&KafkaProxyValidationSubjectType> for KafkaProxyValidationSubjectType {
    open spec fn obeys_from_spec() -> bool {
        true
    }

    open spec fn from_spec(v: &KafkaProxyValidationSubjectType) -> KafkaProxyValidationSubjectType {
        *v
    }
}

impl std::str::FromStr for KafkaProxyValidationSubjectType {
    type Err = ConversionError;

    fn from_str(value: &str) -> (res: Result<Self, ConversionError>)
        ensures
            res == KafkaProxyValidationSubjectType::from_wire(value@),
    {
        KafkaProxyValidationSubjectType::from_str(value)
    }
}

impl std::convert::TryFrom<&str> for KafkaProxyValidationSubjectType {
    type Error = ConversionError;

    fn try_from(value: &str) -> (res: Result<Self, ConversionError>) {
        KafkaProxyValidationSubjectType::from_str(value)
    }
}

impl vstd::std_specs::convert::TryFromSpecImpl<&str> for KafkaProxyValidationSubjectType {
    open spec fn obeys_try_from_spec() -> bool {
        true
    }

    open spec fn try_from_spec(v: &str) -> Result<Self, ConversionError> {
        KafkaProxyValidationSubjectType::from_wire(v@)
    }
}

impl std::convert::TryFrom<&String> for KafkaProxyValidationSubjectType {
    type Error = ConversionError;

    fn try_from(value: &String) -> (res: Result<Self, ConversionError>) {
        KafkaProxyValidationSubjectType::from_str(value.as_str())
    }
}

impl vstd::std_specs::convert::TryFromSpecImpl<&String> for KafkaProxyValidationSubjectType {
    open spec fn obeys_try_from_spec() -> bool {
        true
    }

    open spec fn try_from_spec(v: &String) -> Result<Self, ConversionError> {
        KafkaProxyValidationSubjectType::from_wire(v@)
    }
}

impl std::convert::TryFrom<String> for KafkaProxyValidationSubjectType {
    type Error = ConversionError;

    fn try_from(value: String) -> (res: Result<Self, ConversionError>) {
        KafkaProxyValidationSubjectType::from_str(value.as_str())
    }
}

impl vstd::std_specs::convert::TryFromSpecImpl<String> for KafkaProxyValidationSubjectType {
    open spec fn obeys_try_from_spec() -> bool {
        true
    }

    open spec fn try_from_spec(v: String) -> Result<Self, ConversionError> {
        KafkaProxyValidationSubjectType::from_wire(v@)
    }
}

/// The network a Kafka proxy is available on.
#[derive(Clone, Copy, Debug, Eq, Hash, Ord, PartialEq, PartialOrd, Structural)]
pub enum KafkaProxyZone {
    Internal,
    Public,
}

impl KafkaProxyZone {
    /// The text that names the value on the wire.
    pub open spec fn wire(self) -> Seq<char> {
        match self {
            KafkaProxyZone::Internal => "internal"@,
            KafkaProxyZone::Public => "public"@,
        }
    }

    /// The value that a text names, if it names one.
    pub open spec fn from_wire(s: Seq<char>) -> Result<KafkaProxyZone, ConversionError> {
        if s == "internal"@ {
            Ok(KafkaProxyZone::Internal)
        } else if s == "public"@ {
            Ok(KafkaProxyZone::Public)
        } else {
            Err(ConversionError::from_static("invalid value"))
        }
    }

    /// The text that names the value on the wire.
    pub fn to_string(&self) -> (res: String)
        ensures
            res@ == self.wire(),
    {
        match *self {
            KafkaProxyZone::Internal => String::from_str("internal"),
            KafkaProxyZone::Public => String::from_str("public"),
        }
    }

    /// The value that `value` names; any other text is refused.
    pub fn from_str(value: &str) -> (res: Result<KafkaProxyZone, ConversionError>)
        ensures
            res == KafkaProxyZone::from_wire(value@),
    {
        if str_equals(value, "internal") {
            Ok(KafkaProxyZone::Internal)
        } else if str_equals(value, "public") {
            Ok(KafkaProxyZone::Public)
        } else {
            Err(ConversionError::from("invalid value"))
        }
    }

    /// Reading back the wire name of a value gives that value.
    pub proof fn lemma_wire_round_trip(self)
        ensures
            KafkaProxyZone::from_wire(self.wire()) == Ok::<KafkaProxyZone, ConversionError>(self),
    {
        reveal_strlit("internal");
        reveal_strlit("public");
        assert("internal"@.len() == 8);
        assert("public"@.len() == 6);
    }

    /// A text that is read as a value is that value's wire name.
    pub proof fn lemma_wire_names_only(s: Seq<char>)
        ensures
            KafkaProxyZone::from_wire(s) matches Ok(v) ==> v.wire() == s,
    {
    }
}

impl From<&KafkaProxyZone> for KafkaProxyZone {
    fn from(value: &KafkaProxyZone) -> (res: Self) {
        *value
    }
}

impl vstd::std_specs::convert::FromSpecImpl<&KafkaProxyZone> for KafkaProxyZone {
    open spec fn obeys_from_spec() -> bool {
        true
    }

    open spec fn from_spec(v: &KafkaProxyZone) -> KafkaProxyZone {
        *v
    }
}

impl std::str::FromStr for KafkaProxyZone {
    type Err = ConversionError;

    fn from_str(value: &str) -> (res: Result<Self, ConversionError>)
        ensures
            res == KafkaProxyZone::from_wire(value@),
    {
        KafkaProxyZone::from_str(value)
    }
}

impl std::convert::TryFrom<&str> for KafkaProxyZone {
    type Error = ConversionError;

    fn try_from(value: &str) -> (res: Result<Self, ConversionError>) {
        KafkaProxyZone::from_str(value)
    }
}

impl vstd::std_specs::convert::TryFromSpecImpl<&str> for KafkaProxyZone {
    open spec fn obeys_try_from_spec() -> bool {
        true
    }

    open spec fn try_from_spec(v: &str) -> Result<Self, ConversionError> {
        KafkaProxyZone::from_wire(v@)
    }
}

impl std::convert::TryFrom<&String> for KafkaProxyZone {
    type Error = ConversionError;

    fn try_from(value: &String) -> (res: Result<Self, ConversionError>) {
        KafkaProxyZone::from_str(value.as_str())
    }
}

impl vstd::std_specs::convert::TryFromSpecImpl<&String> for KafkaProxyZone {
    open spec fn obeys_try_from_spec() -> bool {
        true
    }

    open spec fn try_from_spec(v: &String) -> Result<Self, ConversionError> {
        KafkaProxyZone::from_wire(v@)
    }
}

impl std::convert::TryFrom<String> for KafkaProxyZone {
    type Error = ConversionError;

    fn try_from(value: String) -> (res: Result<Self, ConversionError>) {
        KafkaProxyZone::from_str(value.as_str())
    }
}

impl vstd::std_specs::convert::TryFromSpecImpl<String> for KafkaProxyZone {
    open spec fn obeys_try_from_spec() -> bool {
        true
    }

    open spec fn try_from_spec(v: String) -> Result<Self, ConversionError> {
        KafkaProxyZone::from_wire(v@)
    }
}

/// The kind of limit that a limit value sets.
#[derive(Clone, Copy, Debug, Eq, Hash, Ord, PartialEq, PartialOrd, Structural)]
pub enum LimitValueCertificateCountName {
    Cpu,
    Mem,
    CertificateCount,
    SecretCount,
    TopicCount,
    PartitionCount,
    ConsumerRate,
    ProducerRate,
    RequestRate,
}

impl LimitValueCertificateCountName {
    /// The text that names the value on the wire.
    pub open spec fn wire(self) -> Seq<char> {
        match self {
            LimitValueCertificateCountName::Cpu => "cpu"@,
            LimitValueCertificateCountName::Mem => "mem"@,
            LimitValueCertificateCountName::CertificateCount => "certificateCount"@,
            LimitValueCertificateCountName::SecretCount => "secretCount"@,
            LimitValueCertificateCountName::TopicCount => "topicCount"@,
            LimitValueCertificateCountName::PartitionCount => "partitionCount"@,
            LimitValueCertificateCountName::ConsumerRate => "consumerRate"@,
            LimitValueCertificateCountName::ProducerRate => "producerRate"@,
            LimitValueCertificateCountName::RequestRate => "requestRate"@,
        }
    }

    /// The value that a text names, if it names one.
    pub open spec fn from_wire(s: Seq<char>) -> Result<LimitValueCertificateCountName, ConversionError> {
        if s == "cpu"@ {
            Ok(LimitValueCertificateCountName::Cpu)
        } else if s == "mem"@ {
            Ok(LimitValueCertificateCountName::Mem)
        } else if s == "certificateCount"@ {
            Ok(LimitValueCertificateCountName::CertificateCount)
        } else if s == "secretCount"@ {
            Ok(LimitValueCertificateCountName::SecretCount)
        } else if s == "topicCount"@ {
            Ok(LimitValueCertificateCountName::TopicCount)
        } else if s == "partitionCount"@ {
            Ok(LimitValueCertificateCountName::PartitionCount)
        } else if s == "consumerRate"@ {
            Ok(LimitValueCertificateCountName::ConsumerRate)
        } else if s == "producerRate"@ {
            Ok(LimitValueCertificateCountName::ProducerRate)
        } else if s == "requestRate"@ {
            Ok(LimitValueCertificateCountName::RequestRate)
        } else {
            Err(ConversionError::from_static("invalid value"))
        }
    }

    /// The text that names the value on the wire.
    pub fn to_string(&self) -> (res: String)
        ensures
            res@ == self.wire(),
    {
        match *self {
            LimitValueCertificateCountName::Cpu => String::from_str("cpu"),
            LimitValueCertificateCountName::Mem => String::from_str("mem"),
            LimitValueCertificateCountName::CertificateCount => String::from_str("certificateCount"),
            LimitValueCertificateCountName::SecretCount => String::from_str("secretCount"),
            LimitValueCertificateCountName::TopicCount => String::from_str("topicCount"),
            LimitValueCertificateCountName::PartitionCount => String::from_str("partitionCount"),
            LimitValueCertificateCountName::ConsumerRate => String::from_str("consumerRate"),
            LimitValueCertificateCountName::ProducerRate => String::from_str("producerRate"),
            LimitValueCertificateCountName::RequestRate => String::from_str("requestRate"),
        }
    }

    /// The value that `value` names; any other text is refused.
    pub fn from_str(value: &str) -> (res: Result<LimitValueCertificateCountName, ConversionError>)
        ensures
            res == LimitValueCertificateCountName::from_wire(value@),
    {
        if str_equals(value, "cpu") {
            Ok(LimitValueCertificateCountName::Cpu)
        } else if str_equals(value, "mem") {
            Ok(LimitValueCertificateCountName::Mem)
        } else if str_equals(value, "certificateCount") {
            Ok(LimitValueCertificateCountName::CertificateCount)
        } else if str_equals(value, "secretCount") {
            Ok(LimitValueCertificateCountName::SecretCount)
        } else if str_equals(value, "topicCount") {
            Ok(LimitValueCertificateCountName::TopicCount)
        } else if str_equals(value, "partitionCount") {
            Ok(LimitValueCertificateCountName::PartitionCount)
        } else if str_equals(value, "consumerRate") {
            Ok(LimitValueCertificateCountName::ConsumerRate)
        } else if str_equals(value, "producerRate") {
            Ok(LimitValueCertificateCountName::ProducerRate)
        } else if str_equals(value, "requestRate") {
            Ok(LimitValueCertificateCountName::RequestRate)
        } else {
            Err(ConversionError::from("invalid value"))
        }
    }

    /// Reading back the wire name of a value gives that value.
    pub proof fn lemma_wire_round_trip(self)
        ensures
            LimitValueCertificateCountName::from_wire(self.wire()) == Ok::<LimitValueCertificateCountName, ConversionError>(self),
    {
        reveal_strlit("cpu");
        reveal_strlit("mem");
        reveal_strlit("certificateCount");
        reveal_strlit("secretCount");
        reveal_strlit("topicCount");
        reveal_strlit("partitionCount");
        reveal_strlit("consumerRate");
        reveal_strlit("producerRate");
        reveal_strlit("requestRate");
        assert("cpu"@.len() == 3);
        assert("mem"@.len() == 3);
        assert("certificateCount"@.len() == 16);
        assert("secretCount"@.len() == 11);
        assert("topicCount"@.len() == 10);
        assert("partitionCount"@.len() == 14);
        assert("consumerRate"@.len() == 12);
        assert("producerRate"@.len() == 12);
        assert("requestRate"@.len() == 11);
        assert("mem"@[0] != "cpu"@[0]);
        assert("producerRate"@[0] != "consumerRate"@[0]);
        assert("requestRate"@[0] != "secretCount"@[0]);
    }

    /// A text that is read as a value is that value's wire name.
    pub proof fn lemma_wire_names_only(s: Seq<char>)
        ensures
            LimitValueCertificateCountName::from_wire(s) matches Ok(v) ==> v.wire() == s,
    {
    }
}

impl From<&LimitValueCertificateCountName> for LimitValueCertificateCountName {
    fn from(value: &LimitValueCertificateCountName) -> (res: Self) {
        *value
    }
}

impl vstd::std_specs::convert::FromSpecImpl<&LimitValueCertificateCountName> for LimitValueCertificateCountName {
    open spec fn obeys_from_spec() -> bool {
        true
    }

    open spec fn from_spec(v: &LimitValueCertificateCountName) -> LimitValueCertificateCountName {
        *v
    }
}

impl std::str::FromStr for LimitValueCertificateCountName {
    type Err = ConversionError;

    fn from_str(value: &str) -> (res: Result<Self, ConversionError>)
        ensures
            res == LimitValueCertificateCountName::from_wire(value@),
    {
        LimitValueCertificateCountName::from_str(value)
    }
}

impl std::convert::TryFrom<&str> for LimitValueCertificateCountName {
    type Error = ConversionError;

    fn try_from(value: &str) -> (res: Result<Self, ConversionError>) {
        LimitValueCertificateCountName::from_str(value)
    }
}

impl vstd::std_specs::convert::TryFromSpecImpl<&str> for LimitValueCertificateCountName {
    open spec fn obeys_try_from_spec() -> bool {
        true
    }

    open spec fn try_from_spec(v: &str) -> Result<Self, ConversionError> {
        LimitValueCertificateCountName::from_wire(v@)
    }
}

impl std::convert::TryFrom<&String> for LimitValueCertificateCountName {
    type Error = ConversionError;

    fn try_from(value: &String) -> (res: Result<Self, ConversionError>) {
        LimitValueCertificateCountName::from_str(value.as_str())
    }
}

impl vstd::std_specs::convert::TryFromSpecImpl<&String> for LimitValueCertificateCountName {
    open spec fn obeys_try_from_spec() -> bool {
        true
    }

    open spec fn try_from_spec(v: &String) -> Result<Self, ConversionError> {
        LimitValueCertificateCountName::from_wire(v@)
    }
}

impl std::convert::TryFrom<String> for LimitValueCertificateCountName {
    type Error = ConversionError;

    fn try_from(value: String) -> (res: Result<Self, ConversionError>) {
        LimitValueCertificateCountName::from_str(value.as_str())
    }
}

impl vstd::std_specs::convert::TryFromSpecImpl<String> for LimitValueCertificateCountName {
    open spec fn obeys_try_from_spec() -> bool {
        true
    }

    open spec fn try_from_spec(v: String) -> Result<Self, ConversionError> {
        LimitValueCertificateCountName::from_wire(v@)
    }
}

/// The kind of limit that a limit value sets.
#[derive(Clone, Copy, Debug, Eq, Hash, Ord, PartialEq, PartialOrd, Structural)]
pub enum LimitValueConsumerRateName {
    Cpu,
    Mem,
    CertificateCount,
    SecretCount,
    TopicCount,
    PartitionCount,
    ConsumerRate,
    ProducerRate,
    RequestRate,
}

impl LimitValueConsumerRateName {
    /// The text that names the value on the wire.
    pub open spec fn wire(self) -> Seq<char> {
        match self {
            LimitValueConsumerRateName::Cpu => "cpu"@,
            LimitValueConsumerRateName::Mem => "mem"@,
            LimitValueConsumerRateName::CertificateCount => "certificateCount"@,
            LimitValueConsumerRateName::SecretCount => "secretCount"@,
            LimitValueConsumerRateName::TopicCount => "topicCount"@,
            LimitValueConsumerRateName::PartitionCount => "partitionCount"@,
            LimitValueConsumerRateName::ConsumerRate => "consumerRate"@,
            LimitValueConsumerRateName::ProducerRate => "producerRate"@,
            LimitValueConsumerRateName::RequestRate => "requestRate"@,
        }
    }

    /// The value that a text names, if it names one.
    pub open spec fn from_wire(s: Seq<char>) -> Result<LimitValueConsumerRateName, ConversionError> {
        if s == "cpu"@ {
            Ok(LimitValueConsumerRateName::Cpu)
        } else if s == "mem"@ {
            Ok(LimitValueConsumerRateName::Mem)
        } else if s == "certificateCount"@ {
            Ok(LimitValueConsumerRateName::CertificateCount)
        } else if s == "secretCount"@ {
            Ok(LimitValueConsumerRateName::SecretCount)
        } else if s == "topicCount"@ {
            Ok(LimitValueConsumerRateName::TopicCount)
        } else if s == "partitionCount"@ {
            Ok(LimitValueConsumerRateName::PartitionCount)
        } else if s == "consumerRate"@ {
            Ok(LimitValueConsumerRateName::ConsumerRate)
        } else if s == "producerRate"@ {
            Ok(LimitValueConsumerRateName::ProducerRate)
        } else if s == "requestRate"@ {
            Ok(LimitValueConsumerRateName::RequestRate)
        } else {
            Err(ConversionError::from_static("invalid value"))
        }
    }

    /// The text that names the value on the wire.
    pub fn to_string(&self) -> (res: String)
        ensures
            res@ == self.wire(),
    {
        match *self {
            LimitValueConsumerRateName::Cpu => String::from_str("cpu"),
            LimitValueConsumerRateName::Mem => String::from_str("mem"),
            LimitValueConsumerRateName::CertificateCount => String::from_str("certificateCount"),
            LimitValueConsumerRateName::SecretCount => String::from_str("secretCount"),
            LimitValueConsumerRateName::TopicCount => String::from_str("topicCount"),
            LimitValueConsumerRateName::PartitionCount => String::from_str("partitionCount"),
            LimitValueConsumerRateName::ConsumerRate => String::from_str("consumerRate"),
            LimitValueConsumerRateName::ProducerRate => String::from_str("producerRate"),
            LimitValueConsumerRateName::RequestRate => String::from_str("requestRate"),
        }
    }

    /// The value that `value` names; any other text is refused.
    pub fn from_str(value: &str) -> (res: Result<LimitValueConsumerRateName, ConversionError>)
        ensures
            res == LimitValueConsumerRateName::from_wire(value@),
    {
        if str_equals(value, "cpu") {
            Ok(LimitValueConsumerRateName::Cpu)
        } else if str_equals(value, "mem") {
            Ok(LimitValueConsumerRateName::Mem)
        } else if str_equals(value, "certificateCount") {
            Ok(LimitValueConsumerRateName::CertificateCount)
        } else if str_equals(value, "secretCount") {
            Ok(LimitValueConsumerRateName::SecretCount)
        } else if str_equals(value, "topicCount") {
            Ok(LimitValueConsumerRateName::TopicCount)
        } else if str_equals(value, "partitionCount") {
            Ok(LimitValueConsumerRateName::PartitionCount)
        } else if str_equals(value, "consumerRate") {
            Ok(LimitValueConsumerRateName::ConsumerRate)
        } else if str_equals(value, "producerRate") {
            Ok(LimitValueConsumerRateName::ProducerRate)
        } else if str_equals(value, "requestRate") {
            Ok(LimitValueConsumerRateName::RequestRate)
        } else {
            Err(ConversionError::from("invalid value"))
        }
    }

    /// Reading back the wire name of a value gives that value.
    pub proof fn lemma_wire_round_trip(self)
        ensures
            LimitValueConsumerRateName::from_wire(self.wire()) == Ok::<LimitValueConsumerRateName, ConversionError>(self),
    {
        reveal_strlit("cpu");
        reveal_strlit("mem");
        reveal_strlit("certificateCount");
        reveal_strlit("secretCount");
        reveal_strlit("topicCount");
        reveal_strlit("partitionCount");
        reveal_strlit("consumerRate");
        reveal_strlit("producerRate");
        reveal_strlit("requestRate");
        assert("cpu"@.len() == 3);
        assert("mem"@.len() == 3);
        assert("certificateCount"@.len() == 16);
        assert("secretCount"@.len() == 11);
        assert("topicCount"@.len() == 10);
        assert("partitionCount"@.len() == 14);
        assert("consumerRate"@.len() == 12);
        assert("producerRate"@.len() == 12);
        assert("requestRate"@.len() == 11);
        assert("mem"@[0] != "cpu"@[0]);
        assert("producerRate"@[0] != "consumerRate"@[0]);
        assert("requestRate"@[0] != "secretCount"@[0]);
    }

    /// A text that is read as a value is that value's wire name.
    pub proof fn lemma_wire_names_only(s: Seq<char>)
        ensures
            LimitValueConsumerRateName::from_wire(s) matches Ok(v) ==> v.wire() == s,
    {
    }
}

impl From<&LimitValueConsumerRateName> for LimitValueConsumerRateName {
    fn from(value: &LimitValueConsumerRateName) -> (res: Self) {
        *value
    }
}

impl vstd::std_specs::convert::FromSpecImpl<&LimitValueConsumerRateName> for LimitValueConsumerRateName {
    open spec fn obeys_from_spec() -> bool {
        true
    }

    open spec fn from_spec(v: &LimitValueConsumerRateName) -> LimitValueConsumerRateName {
        *v
    }
}

impl std::str::FromStr for LimitValueConsumerRateName {
    type Err = ConversionError;

    fn from_str(value: &str) -> (res: Result<Self, ConversionError>)
        ensures
            res == LimitValueConsumerRateName::from_wire(value@),
    {
        LimitValueConsumerRateName::from_str(value)
    }
}

impl std::convert::TryFrom<&str> for LimitValueConsumerRateName {
    type Error = ConversionError;

    fn try_from(value: &str) -> (res: Result<Self, ConversionError>) {
        LimitValueConsumerRateName::from_str(value)
    }
}

impl vstd::std_specs::convert::TryFromSpecImpl<&str> for LimitValueConsumerRateName {
    open spec fn obeys_try_from_spec() -> bool {
        true
    }

    open spec fn try_from_spec(v: &str) -> Result<Self, ConversionError> {
        LimitValueConsumerRateName::from_wire(v@)
    }
}

impl std::convert::TryFrom<&String> for LimitValueConsumerRateName {
    type Error = ConversionError;

    fn try_from(value: &String) -> (res: Result<Self, ConversionError>) {
        LimitValueConsumerRateName::from_str(value.as_str())
    }
}

impl vstd::std_specs::convert::TryFromSpecImpl<&String> for LimitValueConsumerRateName {
    open spec fn obeys_try_from_spec() -> bool {
        true
    }

    open spec fn try_from_spec(v: &String) -> Result<Self, ConversionError> {
        LimitValueConsumerRateName::from_wire(v@)
    }
}

impl std::convert::TryFrom<String> for LimitValueConsumerRateName {
    type Error = ConversionError;

    fn try_from(value: String) -> (res: Result<Self, ConversionError>) {
        LimitValueConsumerRateName::from_str(value.as_str())
    }
}

impl vstd::std_specs::convert::TryFromSpecImpl<String> for LimitValueConsumerRateName {
    open spec fn obeys_try_from_spec() -> bool {
        true
    }

    open spec fn try_from_spec(v: String) -> Result<Self, ConversionError> {
        LimitValueConsumerRateName::from_wire(v@)
    }
}

/// The kind of limit that a limit value sets.
#[derive(Clone, Copy, Debug, Eq, Hash, Ord, PartialEq, PartialOrd, Structural)]
pub enum LimitValueCpuName {
    Cpu,
    Mem,
    CertificateCount,
    SecretCount,
    TopicCount,
    PartitionCount,
    ConsumerRate,
    ProducerRate,
    RequestRate,
}

impl LimitValueCpuName {
    /// The text that names the value on the wire.
    pub open spec fn wire(self) -> Seq<char> {
        match self {
            LimitValueCpuName::Cpu => "cpu"@,
            LimitValueCpuName::Mem => "mem"@,
            LimitValueCpuName::CertificateCount => "certificateCount"@,
            LimitValueCpuName::SecretCount => "secretCount"@,
            LimitValueCpuName::TopicCount => "topicCount"@,
            LimitValueCpuName::PartitionCount => "partitionCount"@,
            LimitValueCpuName::ConsumerRate => "consumerRate"@,
            LimitValueCpuName::ProducerRate => "producerRate"@,
            LimitValueCpuName::RequestRate => "requestRate"@,
        }
    }

    /// The value that a text names, if it names one.
    pub open spec fn from_wire(s: Seq<char>) -> Result<LimitValueCpuName, ConversionError> {
        if s == "cpu"@ {
            Ok(LimitValueCpuName::Cpu)
        } else if s == "mem"@ {
            Ok(LimitValueCpuName::Mem)
        } else if s == "certificateCount"@ {
            Ok(LimitValueCpuName::CertificateCount)
        } else if s == "secretCount"@ {
            Ok(LimitValueCpuName::SecretCount)
        } else if s == "topicCount"@ {
            Ok(LimitValueCpuName::TopicCount)
        } else if s == "partitionCount"@ {
            Ok(LimitValueCpuName::PartitionCount)
        } else if s == "consumerRate"@ {
            Ok(LimitValueCpuName::ConsumerRate)
        } else if s == "producerRate"@ {
            Ok(LimitValueCpuName::ProducerRate)
        } else if s == "requestRate"@ {
            Ok(LimitValueCpuName::RequestRate)
        } else {
            Err(ConversionError::from_static("invalid value"))
        }
    }

    /// The text that names the value on the wire.
    pub fn to_string(&self) -> (res: String)
        ensures
            res@ == self.wire(),
    {
        match *self {
            LimitValueCpuName::Cpu => String::from_str("cpu"),
            LimitValueCpuName::Mem => String::from_str("mem"),
            LimitValueCpuName::CertificateCount => String::from_str("certificateCount"),
            LimitValueCpuName::SecretCount => String::from_str("secretCount"),
            LimitValueCpuName::TopicCount => String::from_str("topicCount"),
            LimitValueCpuName::PartitionCount => String::from_str("partitionCount"),
            LimitValueCpuName::ConsumerRate => String::from_str("consumerRate"),
            LimitValueCpuName::ProducerRate => String::from_str("producerRate"),
            LimitValueCpuName::RequestRate => String::from_str("requestRate"),
        }
    }

    /// The value that `value` names; any other text is refused.
    pub fn from_str(value: &str) -> (res: Result<LimitValueCpuName, ConversionError>)
        ensures
            res == LimitValueCpuName::from_wire(value@),
    {
        if str_equals(value, "cpu") {
            Ok(LimitValueCpuName::Cpu)
        } else if str_equals(value, "mem") {
            Ok(LimitValueCpuName::Mem)
        } else if str_equals(value, "certificateCount") {
            Ok(LimitValueCpuName::CertificateCount)
        } else if str_equals(value, "secretCount") {
            Ok(LimitValueCpuName::SecretCount)
        } else if str_equals(value, "topicCount") {
            Ok(LimitValueCpuName::TopicCount)
        } else if str_equals(value, "partitionCount") {
            Ok(LimitValueCpuName::PartitionCount)
        } else if str_equals(value, "consumerRate") {
            Ok(LimitValueCpuName::ConsumerRate)
        } else if str_equals(value, "producerRate") {
            Ok(LimitValueCpuName::ProducerRate)
        } else if str_equals(value, "requestRate") {
            Ok(LimitValueCpuName::RequestRate)
        } else {
            Err(ConversionError::from("invalid value"))
        }
    }

    /// Reading back the wire name of a value gives that value.
    pub proof fn lemma_wire_round_trip(self)
        ensures
            LimitValueCpuName::from_wire(self.wire()) == Ok::<LimitValueCpuName, ConversionError>(self),
    {
        reveal_strlit("cpu");
        reveal_strlit("mem");
        reveal_strlit("certificateCount");
        reveal_strlit("secretCount");
        reveal_strlit("topicCount");
        reveal_strlit("partitionCount");
        reveal_strlit("consumerRate");
        reveal_strlit("producerRate");
        reveal_strlit("requestRate");
        assert("cpu"@.len() == 3);
        assert("mem"@.len() == 3);
        assert("certificateCount"@.len() == 16);
        assert("secretCount"@.len() == 11);
        assert("topicCount"@.len() == 10);
        assert("partitionCount"@.len() == 14);
        assert("consumerRate"@.len() == 12);
        assert("producerRate"@.len() == 12);
        assert("requestRate"@.len() == 11);
        assert("mem"@[0] != "cpu"@[0]);
        assert("producerRate"@[0] != "consumerRate"@[0]);
        assert("requestRate"@[0] != "secretCount"@[0]);
    }

    /// A text that is read as a value is that value's wire name.
    pub proof fn lemma_wire_names_only(s: Seq<char>)
        ensures
            LimitValueCpuName::from_wire(s) matches Ok(v) ==> v.wire() == s,
    {
    }
}

impl From<&LimitValueCpuName> for LimitValueCpuName {
    fn from(value: &LimitValueCpuName) -> (res: Self) {
        *value
    }
}

impl vstd::std_specs::convert::FromSpecImpl<&LimitValueCpuName> for LimitValueCpuName {
    open spec fn obeys_from_spec() -> bool {
        true
    }

    open spec fn from_spec(v: &LimitValueCpuName) -> LimitValueCpuName {
        *v
    }
}

impl std::str::FromStr for LimitValueCpuName {
    type Err = ConversionError;

    fn from_str(value: &str) -> (res: Result<Self, ConversionError>)
        ensures
            res == LimitValueCpuName::from_wire(value@),
    {
        LimitValueCpuName::from_str(value)
    }
}

impl std::convert::TryFrom<&str> for LimitValueCpuName {
    type Error = ConversionError;

    fn try_from(value: &str) -> (res: Result<Self, ConversionError>) {
        LimitValueCpuName::from_str(value)
    }
}

impl vstd::std_specs::convert::TryFromSpecImpl<&str> for LimitValueCpuName {
    open spec fn obeys_try_from_spec() -> bool {
        true
    }

    open spec fn try_from_spec(v: &str) -> Result<Self, ConversionError> {
        LimitValueCpuName::from_wire(v@)
    }
}

impl std::convert::TryFrom<&String> for LimitValueCpuName {
    type Error = ConversionError;

    fn try_from(value: &String) -> (res: Result<Self, ConversionError>) {
        LimitValueCpuName::from_str(value.as_str())
    }
}

impl vstd::std_specs::convert::TryFromSpecImpl<&String> for LimitValueCpuName {
    open spec fn obeys_try_from_spec() -> bool {
        true
    }

    open spec fn try_from_spec(v: &String) -> Result<Self, ConversionError> {
        LimitValueCpuName::from_wire(v@)
    }
}

impl std::convert::TryFrom<String> for LimitValueCpuName {
    type Error = ConversionError;

    fn try_from(value: String) -> (res: Result<Self, ConversionError>) {
        LimitValueCpuName::from_str(value.as_str())
    }
}

impl vstd::std_specs::convert::TryFromSpecImpl<String> for LimitValueCpuName {
    open spec fn obeys_try_from_spec() -> bool {
        true
    }

    open spec fn try_from_spec(v: String) -> Result<Self, ConversionError> {
        LimitValueCpuName::from_wire(v@)
    }
}

/// The kind of limit that a limit value sets.
#[derive(Clone, Copy, Debug, Eq, Hash, Ord, PartialEq, PartialOrd, Structural)]
pub enum LimitValueMemName {
    Cpu,
    Mem,
    CertificateCount,
    SecretCount,
    TopicCount,
    PartitionCount,
    ConsumerRate,
    ProducerRate,
    RequestRate,
}

impl LimitValueMemName {
    /// The text that names the value on the wire.
    pub open spec fn wire(self) -> Seq<char> {
        match self {
            LimitValueMemName::Cpu => "cpu"@,
            LimitValueMemName::Mem => "mem"@,
            LimitValueMemName::CertificateCount => "certificateCount"@,
            LimitValueMemName::SecretCount => "secretCount"@,
            LimitValueMemName::TopicCount => "topicCount"@,
            LimitValueMemName::PartitionCount => "partitionCount"@,
            LimitValueMemName::ConsumerRate => "consumerRate"@,
            LimitValueMemName::ProducerRate => "producerRate"@,
            LimitValueMemName::RequestRate => "requestRate"@,
        }
    }

    /// The value that a text names, if it names one.
    pub open spec fn from_wire(s: Seq<char>) -> Result<LimitValueMemName, ConversionError> {
        if s == "cpu"@ {
            Ok(LimitValueMemName::Cpu)
        } else if s == "mem"@ {
            Ok(LimitValueMemName::Mem)
        } else if s == "certificateCount"@ {
            Ok(LimitValueMemName::CertificateCount)
        } else if s == "secretCount"@ {
            Ok(LimitValueMemName::SecretCount)
        } else if s == "topicCount"@ {
            Ok(LimitValueMemName::TopicCount)
        } else if s == "partitionCount"@ {
            Ok(LimitValueMemName::PartitionCount)
        } else if s == "consumerRate"@ {
            Ok(LimitValueMemName::ConsumerRate)
        } else if s == "producerRate"@ {
            Ok(LimitValueMemName::ProducerRate)
        } else if s == "requestRate"@ {
            Ok(LimitValueMemName::RequestRate)
        } else {
            Err(ConversionError::from_static("invalid value"))
        }
    }

    /// The text that names the value on the wire.
    pub fn to_string(&self) -> (res: String)
        ensures
            res@ == self.wire(),
    {
        match *self {
            LimitValueMemName::Cpu => String::from_str("cpu"),
            LimitValueMemName::Mem => String::from_str("mem"),
            LimitValueMemName::CertificateCount => String::from_str("certificateCount"),
            LimitValueMemName::SecretCount => String::from_str("secretCount"),
            LimitValueMemName::TopicCount => String::from_str("topicCount"),
            LimitValueMemName::PartitionCount => String::from_str("partitionCount"),
            LimitValueMemName::ConsumerRate => String::from_str("consumerRate"),
            LimitValueMemName::ProducerRate => String::from_str("producerRate"),
            LimitValueMemName::RequestRate => String::from_str("requestRate"),
        }
    }

    /// The value that `value` names; any other text is refused.
    pub fn from_str(value: &str) -> (res: Result<LimitValueMemName, ConversionError>)
        ensures
            res == LimitValueMemName::from_wire(value@),
    {
        if str_equals(value, "cpu") {
            Ok(LimitValueMemName::Cpu)
        } else if str_equals(value, "mem") {
            Ok(LimitValueMemName::Mem)
        } else if str_equals(value, "certificateCount") {
            Ok(LimitValueMemName::CertificateCount)
        } else if str_equals(value, "secretCount") {
            Ok(LimitValueMemName::SecretCount)
        } else if str_equals(value, "topicCount") {
            Ok(LimitValueMemName::TopicCount)
        } else if str_equals(value, "partitionCount") {
            Ok(LimitValueMemName::PartitionCount)
        } else if str_equals(value, "consumerRate") {
            Ok(LimitValueMemName::ConsumerRate)
        } else if str_equals(value, "producerRate") {
            Ok(LimitValueMemName::ProducerRate)
        } else if str_equals(value, "requestRate") {
            Ok(LimitValueMemName::RequestRate)
        } else {
            Err(ConversionError::from("invalid value"))
        }
    }

    /// Reading back the wire name of a value gives that value.
    pub proof fn lemma_wire_round_trip(self)
        ensures
            LimitValueMemName::from_wire(self.wire()) == Ok::<LimitValueMemName, ConversionError>(self),
    {
        reveal_strlit("cpu");
        reveal_strlit("mem");
        reveal_strlit("certificateCount");
        reveal_strlit("secretCount");
        reveal_strlit("topicCount");
        reveal_strlit("partitionCount");
        reveal_strlit("consumerRate");
        reveal_strlit("producerRate");
        reveal_strlit("requestRate");
        assert("cpu"@.len() == 3);
        assert("mem"@.len() == 3);
        assert("certificateCount"@.len() == 16);
        assert("secretCount"@.len() == 11);
        assert("topicCount"@.len() == 10);
        assert("partitionCount"@.len() == 14);
        assert("consumerRate"@.len() == 12);
        assert("producerRate"@.len() == 12);
        assert("requestRate"@.len() == 11);
        assert("mem"@[0] != "cpu"@[0]);
        assert("producerRate"@[0] != "consumerRate"@[0]);
        assert("requestRate"@[0] != "secretCount"@[0]);
    }

    /// A text that is read as a value is that value's wire name.
    pub proof fn lemma_wire_names_only(s: Seq<char>)
        ensures
            LimitValueMemName::from_wire(s) matches Ok(v) ==> v.wire() == s,
    {
    }
}

impl From<&LimitValueMemName> for LimitValueMemName {
    fn from(value: &LimitValueMemName) -> (res: Self) {
        *value
    }
}

impl vstd::std_specs::convert::FromSpecImpl<&LimitValueMemName> for LimitValueMemName {
    open spec fn obeys_from_spec() -> bool {
        true
    }

    open spec fn from_spec(v: &LimitValueMemName) -> LimitValueMemName {
        *v
    }
}

impl std::str::FromStr for LimitValueMemName {
    type Err = ConversionError;

    fn from_str(value: &str) -> (res: Result<Self, ConversionError>)
        ensures
            res == LimitValueMemName::from_wire(value@),
    {
        LimitValueMemName::from_str(value)
    }
}

impl std::convert::TryFrom<&str> for LimitValueMemName {
    type Error = ConversionError;

    fn try_from(value: &str) -> (res: Result<Self, ConversionError>) {
        LimitValueMemName::from_str(value)
    }
}

impl vstd::std_specs::convert::TryFromSpecImpl<&str> for LimitValueMemName {
    open spec fn obeys_try_from_spec() -> bool {
        true
    }

    open spec fn try_from_spec(v: &str) -> Result<Self, ConversionError> {
        LimitValueMemName::from_wire(v@)
    }
}

impl std::convert::TryFrom<&String> for LimitValueMemName {
    type Error = ConversionError;

    fn try_from(value: &String) -> (res: Result<Self, ConversionError>) {
        LimitValueMemName::from_str(value.as_str())
    }
}

impl vstd::std_specs::convert::TryFromSpecImpl<&String> for LimitValueMemName {
    open spec fn obeys_try_from_spec() -> bool {
        true
    }

    open spec fn try_from_spec(v: &String) -> Result<Self, ConversionError> {
        LimitValueMemName::from_wire(v@)
    }
}

impl std::convert::TryFrom<String> for LimitValueMemName {
    type Error = ConversionError;

    fn try_from(value: String) -> (res: Result<Self, ConversionError>) {
        LimitValueMemName::from_str(value.as_str())
    }
}

impl vstd::std_specs::convert::TryFromSpecImpl<String> for LimitValueMemName {
    open spec fn obeys_try_from_spec() -> bool {
        true
    }

    open spec fn try_from_spec(v: String) -> Result<Self, ConversionError> {
        LimitValueMemName::from_wire(v@)
    }
}

/// The kind of limit that a limit value sets.
#[derive(Clone, Copy, Debug, Eq, Hash, Ord, PartialEq, PartialOrd, Structural)]
pub enum LimitValuePartitionCountName {
    Cpu,
    Mem,
    CertificateCount,
    SecretCount,
    TopicCount,
    PartitionCount,
    ConsumerRate,
    ProducerRate,
    RequestRate,
}

impl LimitValuePartitionCountName {
    /// The text that names the value on the wire.
    pub open spec fn wire(self) -> Seq<char> {
        match self {
            LimitValuePartitionCountName::Cpu => "cpu"@,
            LimitValuePartitionCountName::Mem => "mem"@,
            LimitValuePartitionCountName::CertificateCount => "certificateCount"@,
            LimitValuePartitionCountName::SecretCount => "secretCount"@,
            LimitValuePartitionCountName::TopicCount => "topicCount"@,
            LimitValuePartitionCountName::PartitionCount => "partitionCount"@,
            LimitValuePartitionCountName::ConsumerRate => "consumerRate"@,
            LimitValuePartitionCountName::ProducerRate => "producerRate"@,
            LimitValuePartitionCountName::RequestRate => "requestRate"@,
        }
    }

    /// The value that a text names, if it names one.
    pub open spec fn from_wire(s: Seq<char>) -> Result<LimitValuePartitionCountName, ConversionError> {
        if s == "cpu"@ {
            Ok(LimitValuePartitionCountName::Cpu)
        } else if s == "mem"@ {
            Ok(LimitValuePartitionCountName::Mem)
        } else if s == "certificateCount"@ {
            Ok(LimitValuePartitionCountName::CertificateCount)
        } else if s == "secretCount"@ {
            Ok(LimitValuePartitionCountName::SecretCount)
        } else if s == "topicCount"@ {
            Ok(LimitValuePartitionCountName::TopicCount)
        } else if s == "partitionCount"@ {
            Ok(LimitValuePartitionCountName::PartitionCount)
        } else if s == "consumerRate"@ {
            Ok(LimitValuePartitionCountName::ConsumerRate)
        } else if s == "producerRate"@ {
            Ok(LimitValuePartitionCountName::ProducerRate)
        } else if s == "requestRate"@ {
            Ok(LimitValuePartitionCountName::RequestRate)
        } else {
            Err(ConversionError::from_static("invalid value"))
        }
    }

    /// The text that names the value on the wire.
    pub fn to_string(&self) -> (res: String)
        ensures
            res@ == self.wire(),
    {
        match *self {
            LimitValuePartitionCountName::Cpu => String::from_str("cpu"),
            LimitValuePartitionCountName::Mem => String::from_str("mem"),
            LimitValuePartitionCountName::CertificateCount => String::from_str("certificateCount"),
            LimitValuePartitionCountName::SecretCount => String::from_str("secretCount"),
            LimitValuePartitionCountName::TopicCount => String::from_str("topicCount"),
            LimitValuePartitionCountName::PartitionCount => String::from_str("partitionCount"),
            LimitValuePartitionCountName::ConsumerRate => String::from_str("consumerRate"),
            LimitValuePartitionCountName::ProducerRate => String::from_str("producerRate"),
            LimitValuePartitionCountName::RequestRate => String::from_str("requestRate"),
        }
    }

    /// The value that `value` names; any other text is refused.
    pub fn from_str(value: &str) -> (res: Result<LimitValuePartitionCountName, ConversionError>)
        ensures
            res == LimitValuePartitionCountName::from_wire(value@),
    {
        if str_equals(value, "cpu") {
            Ok(LimitValuePartitionCountName::Cpu)
        } else if str_equals(value, "mem") {
            Ok(LimitValuePartitionCountName::Mem)
        } else if str_equals(value, "certificateCount") {
            Ok(LimitValuePartitionCountName::CertificateCount)
        } else if str_equals(value, "secretCount") {
            Ok(LimitValuePartitionCountName::SecretCount)
        } else if str_equals(value, "topicCount") {
            Ok(LimitValuePartitionCountName::TopicCount)
        } else if str_equals(value, "partitionCount") {
            Ok(LimitValuePartitionCountName::PartitionCount)
        } else if str_equals(value, "consumerRate") {
            Ok(LimitValuePartitionCountName::ConsumerRate)
        } else if str_equals(value, "producerRate") {
            Ok(LimitValuePartitionCountName::ProducerRate)
        } else if str_equals(value, "requestRate") {
            Ok(LimitValuePartitionCountName::RequestRate)
        } else {
            Err(ConversionError::from("invalid value"))
        }
    }

    /// Reading back the wire name of a value gives that value.
    pub proof fn lemma_wire_round_trip(self)
        ensures
            LimitValuePartitionCountName::from_wire(self.wire()) == Ok::<LimitValuePartitionCountName, ConversionError>(self),
    {
        reveal_strlit("cpu");
        reveal_strlit("mem");
        reveal_strlit("certificateCount");
        reveal_strlit("secretCount");
        reveal_strlit("topicCount");
        reveal_strlit("partitionCount");
        reveal_strlit("consumerRate");
        reveal_strlit("producerRate");
        reveal_strlit("requestRate");
        assert("cpu"@.len() == 3);
        assert("mem"@.len() == 3);
        assert("certificateCount"@.len() == 16);
        assert("secretCount"@.len() == 11);
        assert("topicCount"@.len() == 10);
        assert("partitionCount"@.len() == 14);
        assert("consumerRate"@.len() == 12);
        assert("producerRate"@.len() == 12);
        assert("requestRate"@.len() == 11);
        assert("mem"@[0] != "cpu"@[0]);
        assert("producerRate"@[0] != "consumerRate"@[0]);
        assert("requestRate"@[0] != "secretCount"@[0]);
    }

    /// A text that is read as a value is that value's wire name.
    pub proof fn lemma_wire_names_only(s: Seq<char>)
        ensures
            LimitValuePartitionCountName::from_wire(s) matches Ok(v) ==> v.wire() == s,
    {
    }
}

impl From<&LimitValuePartitionCountName> for LimitValuePartitionCountName {
    fn from(value: &LimitValuePartitionCountName) -> (res: Self) {
        *value
    }
}

impl vstd::std_specs::convert::FromSpecImpl<&LimitValuePartitionCountName> for LimitValuePartitionCountName {
    open spec fn obeys_from_spec() -> bool {
        true
    }

    open spec fn from_spec(v: &LimitValuePartitionCountName) -> LimitValuePartitionCountName {
        *v
    }
}

impl std::str::FromStr for LimitValuePartitionCountName {
    type Err = ConversionError;

    fn from_str(value: &str) -> (res: Result<Self, ConversionError>)
        ensures
            res == LimitValuePartitionCountName::from_wire(value@),
    {
        LimitValuePartitionCountName::from_str(value)
    }
}

impl std::convert::TryFrom<&str> for LimitValuePartitionCountName {
    type Error = ConversionError;

    fn try_from(value: &str) -> (res: Result<Self, ConversionError>) {
        LimitValuePartitionCountName::from_str(value)
    }
}

impl vstd::std_specs::convert::TryFromSpecImpl<&str> for LimitValuePartitionCountName {
    open spec fn obeys_try_from_spec() -> bool {
        true
    }

    open spec fn try_from_spec(v: &str) -> Result<Self, ConversionError> {
        LimitValuePartitionCountName::from_wire(v@)
    }
}

impl std::convert::TryFrom<&String> for LimitValuePartitionCountName {
    type Error = ConversionError;

    fn try_from(value: &String) -> (res: Result<Self, ConversionError>) {
        LimitValuePartitionCountName::from_str(value.as_str())
    }
}

impl vstd::std_specs::convert::TryFromSpecImpl<&String> for LimitValuePartitionCountName {
    open spec fn obeys_try_from_spec() -> bool {
        true
    }

    open spec fn try_from_spec(v: &String) -> Result<Self, ConversionError> {
        LimitValuePartitionCountName::from_wire(v@)
    }
}

impl std::convert::TryFrom<String> for LimitValuePartitionCountName {
    type Error = ConversionError;

    fn try_from(value: String) -> (res: Result<Self, ConversionError>) {
        LimitValuePartitionCountName::from_str(value.as_str())
    }
}

impl vstd::std_specs::convert::TryFromSpecImpl<String> for LimitValuePartitionCountName {
    open spec fn obeys_try_from_spec() -> bool {
        true
    }

    open spec fn try_from_spec(v: String) -> Result<Self, ConversionError> {
        LimitValuePartitionCountName::from_wire(v@)
    }
}

/// The kind of limit that a limit value sets.
#[derive(Clone, Copy, Debug, Eq, Hash, Ord, PartialEq, PartialOrd, Structural)]
pub enum LimitValueProducerRateName {
    Cpu,
    Mem,
    CertificateCount,
    SecretCount,
    TopicCount,
    PartitionCount,
    ConsumerRate,
    ProducerRate,
    RequestRate,
}

impl LimitValueProducerRateName {
    /// The text that names the value on the wire.
    pub open spec fn wire(self) -> Seq<char> {
        match self {
            LimitValueProducerRateName::Cpu => "cpu"@,
            LimitValueProducerRateName::Mem => "mem"@,
            LimitValueProducerRateName::CertificateCount => "certificateCount"@,
            LimitValueProducerRateName::SecretCount => "secretCount"@,
            LimitValueProducerRateName::TopicCount => "topicCount"@,
            LimitValueProducerRateName::PartitionCount => "partitionCount"@,
            LimitValueProducerRateName::ConsumerRate => "consumerRate"@,
            LimitValueProducerRateName::ProducerRate => "producerRate"@,
            LimitValueProducerRateName::RequestRate => "requestRate"@,
        }
    }

    /// The value that a text names, if it names one.
    pub open spec fn from_wire(s: Seq<char>) -> Result<LimitValueProducerRateName, ConversionError> {
        if s == "cpu"@ {
            Ok(LimitValueProducerRateName::Cpu)
        } else if s == "mem"@ {
            Ok(LimitValueProducerRateName::Mem)
        } else if s == "certificateCount"@ {
            Ok(LimitValueProducerRateName::CertificateCount)
        } else if s == "secretCount"@ {
            Ok(LimitValueProducerRateName::SecretCount)
        } else if s == "topicCount"@ {
            Ok(LimitValueProducerRateName::TopicCount)
        } else if s == "partitionCount"@ {
            Ok(LimitValueProducerRateName::PartitionCount)
        } else if s == "consumerRate"@ {
            Ok(LimitValueProducerRateName::ConsumerRate)
        } else if s == "producerRate"@ {
            Ok(LimitValueProducerRateName::ProducerRate)
        } else if s == "requestRate"@ {
            Ok(LimitValueProducerRateName::RequestRate)
        } else {
            Err(ConversionError::from_static("invalid value"))
        }
    }

    /// The text that names the value on the wire.
    pub fn to_string(&self) -> (res: String)
        ensures
            res@ == self.wire(),
    {
        match *self {
            LimitValueProducerRateName::Cpu => String::from_str("cpu"),
            LimitValueProducerRateName::Mem => String::from_str("mem"),
            LimitValueProducerRateName::CertificateCount => String::from_str("certificateCount"),
            LimitValueProducerRateName::SecretCount => String::from_str("secretCount"),
            LimitValueProducerRateName::TopicCount => String::from_str("topicCount"),
            LimitValueProducerRateName::PartitionCount => String::from_str("partitionCount"),
            LimitValueProducerRateName::ConsumerRate => String::from_str("consumerRate"),
            LimitValueProducerRateName::ProducerRate => String::from_str("producerRate"),
            LimitValueProducerRateName::RequestRate => String::from_str("requestRate"),
        }
    }

    /// The value that `value` names; any other text is refused.
    pub fn from_str(value: &str) -> (res: Result<LimitValueProducerRateName, ConversionError>)
        ensures
            res == LimitValueProducerRateName::from_wire(value@),
    {
        if str_equals(value, "cpu") {
            Ok(LimitValueProducerRateName::Cpu)
        } else if str_equals(value, "mem") {
            Ok(LimitValueProducerRateName::Mem)
        } else if str_equals(value, "certificateCount") {
            Ok(LimitValueProducerRateName::CertificateCount)
        } else if str_equals(value, "secretCount") {
            Ok(LimitValueProducerRateName::SecretCount)
        } else if str_equals(value, "topicCount") {
            Ok(LimitValueProducerRateName::TopicCount)
        } else if str_equals(value, "partitionCount") {
            Ok(LimitValueProducerRateName::PartitionCount)
        } else if str_equals(value, "consumerRate") {
            Ok(LimitValueProducerRateName::ConsumerRate)
        } else if str_equals(value, "producerRate") {
            Ok(LimitValueProducerRateName::ProducerRate)
        } else if str_equals(value, "requestRate") {
            Ok(LimitValueProducerRateName::RequestRate)
        } else {
            Err(ConversionError::from("invalid value"))
        }
    }

    /// Reading back the wire name of a value gives that value.
    pub proof fn lemma_wire_round_trip(self)
        ensures
            LimitValueProducerRateName::from_wire(self.wire()) == Ok::<LimitValueProducerRateName, ConversionError>(self),
    {
        reveal_strlit("cpu");
        reveal_strlit("mem");
        reveal_strlit("certificateCount");
        reveal_strlit("secretCount");
        reveal_strlit("topicCount");
        reveal_strlit("partitionCount");
        reveal_strlit("consumerRate");
        reveal_strlit("producerRate");
        reveal_strlit("requestRate");
        assert("cpu"@.len() == 3);
        assert("mem"@.len() == 3);
        assert("certificateCount"@.len() == 16);
        assert("secretCount"@.len() == 11);
        assert("topicCount"@.len() == 10);
        assert("partitionCount"@.len() == 14);
        assert("consumerRate"@.len() == 12);
        assert("producerRate"@.len() == 12);
        assert("requestRate"@.len() == 11);
        assert("mem"@[0] != "cpu"@[0]);
        assert("producerRate"@[0] != "consumerRate"@[0]);
        assert("requestRate"@[0] != "secretCount"@[0]);
    }

    /// A text that is read as a value is that value's wire name.
    pub proof fn lemma_wire_names_only(s: Seq<char>)
        ensures
            LimitValueProducerRateName::from_wire(s) matches Ok(v) ==> v.wire() == s,
    {
    }
}

impl From<&LimitValueProducerRateName> for LimitValueProducerRateName {
    fn from(value: &LimitValueProducerRateName) -> (res: Self) {
        *value
    }
}

impl vstd::std_specs::convert::FromSpecImpl<&LimitValueProducerRateName> for LimitValueProducerRateName {
    open spec fn obeys_from_spec() -> bool {
        true
    }

    open spec fn from_spec(v: &LimitValueProducerRateName) -> LimitValueProducerRateName {
        *v
    }
}

impl std::str::FromStr for LimitValueProducerRateName {
    type Err = ConversionError;

    fn from_str(value: &str) -> (res: Result<Self, ConversionError>)
        ensures
            res == LimitValueProducerRateName::from_wire(value@),
    {
        LimitValueProducerRateName::from_str(value)
    }
}

impl std::convert::TryFrom<&str> for LimitValueProducerRateName {
    type Error = ConversionError;

    fn try_from(value: &str) -> (res: Result<Self, ConversionError>) {
        LimitValueProducerRateName::from_str(value)
    }
}

impl vstd::std_specs::convert::TryFromSpecImpl<&str> for LimitValueProducerRateName {
    open spec fn obeys_try_from_spec() -> bool {
        true
    }

    open spec fn try_from_spec(v: &str) -> Result<Self, ConversionError> {
        LimitValueProducerRateName::from_wire(v@)
    }
}

impl std::convert::TryFrom<&String> for LimitValueProducerRateName {
    type Error = ConversionError;

    fn try_from(value: &String) -> (res: Result<Self, ConversionError>) {
        LimitValueProducerRateName::from_str(value.as_str())
    }
}

impl vstd::std_specs::convert::TryFromSpecImpl<&String> for LimitValueProducerRateName {
    open spec fn obeys_try_from_spec() -> bool {
        true
    }

    open spec fn try_from_spec(v: &String) -> Result<Self, ConversionError> {
        LimitValueProducerRateName::from_wire(v@)
    }
}

impl std::convert::TryFrom<String> for LimitValueProducerRateName {
    type Error = ConversionError;

    fn try_from(value: String) -> (res: Result<Self, ConversionError>) {
        LimitValueProducerRateName::from_str(value.as_str())
    }
}

impl vstd::std_specs::convert::TryFromSpecImpl<String> for LimitValueProducerRateName {
    open spec fn obeys_try_from_spec() -> bool {
        true
    }

    open spec fn try_from_spec(v: String) -> Result<Self, ConversionError> {
        LimitValueProducerRateName::from_wire(v@)
    }
}

/// The kind of limit that a limit value sets.
#[derive(Clone, Copy, Debug, Eq, Hash, Ord, PartialEq, PartialOrd, Structural)]
pub enum LimitValueRequestRateName {
    Cpu,
    Mem,
    CertificateCount,
    SecretCount,
    TopicCount,
    PartitionCount,
    ConsumerRate,
    ProducerRate,
    RequestRate,
}

impl LimitValueRequestRateName {
    /// The text that names the value on the wire.
    pub open spec fn wire(self) -> Seq<char> {
        match self {
            LimitValueRequestRateName::Cpu => "cpu"@,
            LimitValueRequestRateName::Mem => "mem"@,
            LimitValueRequestRateName::CertificateCount => "certificateCount"@,
            LimitValueRequestRateName::SecretCount => "secretCount"@,
            LimitValueRequestRateName::TopicCount => "topicCount"@,
            LimitValueRequestRateName::PartitionCount => "partitionCount"@,
            LimitValueRequestRateName::ConsumerRate => "consumerRate"@,
            LimitValueRequestRateName::ProducerRate => "producerRate"@,
            LimitValueRequestRateName::RequestRate => "requestRate"@,
        }
    }

    /// The value that a text names, if it names one.
    pub open spec fn from_wire(s: Seq<char>) -> Result<LimitValueRequestRateName, ConversionError> {
        if s == "cpu"@ {
            Ok(LimitValueRequestRateName::Cpu)
        } else if s == "mem"@ {
            Ok(LimitValueRequestRateName::Mem)
        } else if s == "certificateCount"@ {
            Ok(LimitValueRequestRateName::CertificateCount)
        } else if s == "secretCount"@ {
            Ok(LimitValueRequestRateName::SecretCount)
        } else if s == "topicCount"@ {
            Ok(LimitValueRequestRateName::TopicCount)
        } else if s == "partitionCount"@ {
            Ok(LimitValueRequestRateName::PartitionCount)
        } else if s == "consumerRate"@ {
            Ok(LimitValueRequestRateName::ConsumerRate)
        } else if s == "producerRate"@ {
            Ok(LimitValueRequestRateName::ProducerRate)
        } else if s == "requestRate"@ {
            Ok(LimitValueRequestRateName::RequestRate)
        } else {
            Err(ConversionError::from_static("invalid value"))
        }
    }

    /// The text that names the value on the wire.
    pub fn to_string(&self) -> (res: String)
        ensures
            res@ == self.wire(),
    {
        match *self {
            LimitValueRequestRateName::Cpu => String::from_str("cpu"),
            LimitValueRequestRateName::Mem => String::from_str("mem"),
            LimitValueRequestRateName::CertificateCount => String::from_str("certificateCount"),
            LimitValueRequestRateName::SecretCount => String::from_str("secretCount"),
            LimitValueRequestRateName::TopicCount => String::from_str("topicCount"),
            LimitValueRequestRateName::PartitionCount => String::from_str("partitionCount"),
            LimitValueRequestRateName::ConsumerRate => String::from_str("consumerRate"),
            LimitValueRequestRateName::ProducerRate => String::from_str("producerRate"),
            LimitValueRequestRateName::RequestRate => String::from_str("requestRate"),
        }
    }

    /// The value that `value` names; any other text is refused.
    pub fn from_str(value: &str) -> (res: Result<LimitValueRequestRateName, ConversionError>)
        ensures
            res == LimitValueRequestRateName::from_wire(value@),
    {
        if str_equals(value, "cpu") {
            Ok(LimitValueRequestRateName::Cpu)
        } else if str_equals(value, "mem") {
            Ok(LimitValueRequestRateName::Mem)
        } else if str_equals(value, "certificateCount") {
            Ok(LimitValueRequestRateName::CertificateCount)
        } else if str_equals(value, "secretCount") {
            Ok(LimitValueRequestRateName::SecretCount)
        } else if str_equals(value, "topicCount") {
            Ok(LimitValueRequestRateName::TopicCount)
        } else if str_equals(value, "partitionCount") {
            Ok(LimitValueRequestRateName::PartitionCount)
        } else if str_equals(value, "consumerRate") {
            Ok(LimitValueRequestRateName::ConsumerRate)
        } else if str_equals(value, "producerRate") {
            Ok(LimitValueRequestRateName::ProducerRate)
        } else if str_equals(value, "requestRate") {
            Ok(LimitValueRequestRateName::RequestRate)
        } else {
            Err(ConversionError::from("invalid value"))
        }
    }

    /// Reading back the wire name of a value gives that value.
    pub proof fn lemma_wire_round_trip(self)
        ensures
            LimitValueRequestRateName::from_wire(self.wire()) == Ok::<LimitValueRequestRateName, ConversionError>(self),
    {
        reveal_strlit("cpu");
        reveal_strlit("mem");
        reveal_strlit("certificateCount");
        reveal_strlit("secretCount");
        reveal_strlit("topicCount");
        reveal_strlit("partitionCount");
        reveal_strlit("consumerRate");
        reveal_strlit("producerRate");
        reveal_strlit("requestRate");
        assert("cpu"@.len() == 3);
        assert("mem"@.len() == 3);
        assert("certificateCount"@.len() == 16);
        assert("secretCount"@.len() == 11);
        assert("topicCount"@.len() == 10);
        assert("partitionCount"@.len() == 14);
        assert("consumerRate"@.len() == 12);
        assert("producerRate"@.len() == 12);
        assert("requestRate"@.len() == 11);
        assert("mem"@[0] != "cpu"@[0]);
        assert("producerRate"@[0] != "consumerRate"@[0]);
        assert("requestRate"@[0] != "secretCount"@[0]);
    }

    /// A text that is read as a value is that value's wire name.
    pub proof fn lemma_wire_names_only(s: Seq<char>)
        ensures
            LimitValueRequestRateName::from_wire(s) matches Ok(v) ==> v.wire() == s,
    {
    }
}

impl From<&LimitValueRequestRateName> for LimitValueRequestRateName {
    fn from(value: &LimitValueRequestRateName) -> (res: Self) {
        *value
    }
}

impl vstd::std_specs::convert::FromSpecImpl<&LimitValueRequestRateName> for LimitValueRequestRateName {
    open spec fn obeys_from_spec() -> bool {
        true
    }

    open spec fn from_spec(v: &LimitValueRequestRateName) -> LimitValueRequestRateName {
        *v
    }
}

impl std::str::FromStr for LimitValueRequestRateName {
    type Err = ConversionError;

    fn from_str(value: &str) -> (res: Result<Self, ConversionError>)
        ensures
            res == LimitValueRequestRateName::from_wire(value@),
    {
        LimitValueRequestRateName::from_str(value)
    }
}

impl std::convert::TryFrom<&str> for LimitValueRequestRateName {
    type Error = ConversionError;

    fn try_from(value: &str) -> (res: Result<Self, ConversionError>) {
        LimitValueRequestRateName::from_str(value)
    }
}

impl vstd::std_specs::convert::TryFromSpecImpl<&str> for LimitValueRequestRateName {
    open spec fn obeys_try_from_spec() -> bool {
        true
    }

    open spec fn try_from_spec(v: &str) -> Result<Self, ConversionError> {
        LimitValueRequestRateName::from_wire(v@)
    }
}

impl std::convert::TryFrom<&String> for LimitValueRequestRateName {
    type Error = ConversionError;

    fn try_from(value: &String) -> (res: Result<Self, ConversionError>) {
        LimitValueRequestRateName::from_str(value.as_str())
    }
}

impl vstd::std_specs::convert::TryFromSpecImpl<&String> for LimitValueRequestRateName {
    open spec fn obeys_try_from_spec() -> bool {
        true
    }

    open spec fn try_from_spec(v: &String) -> Result<Self, ConversionError> {
        LimitValueRequestRateName::from_wire(v@)
    }
}

impl std::convert::TryFrom<String> for LimitValueRequestRateName {
    type Error = ConversionError;

    fn try_from(value: String) -> (res: Result<Self, ConversionError>) {
        LimitValueRequestRateName::from_str(value.as_str())
    }
}

impl vstd::std_specs::convert::TryFromSpecImpl<String> for LimitValueRequestRateName {
    open spec fn obeys_try_from_spec() -> bool {
        true
    }

    open spec fn try_from_spec(v: String) -> Result<Self, ConversionError> {
        LimitValueRequestRateName::from_wire(v@)
    }
}

/// The kind of limit that a limit value sets.
#[derive(Clone, Copy, Debug, Eq, Hash, Ord, PartialEq, PartialOrd, Structural)]
pub enum LimitValueSecretCountName {
    Cpu,
    Mem,
    CertificateCount,
    SecretCount,
    TopicCount,
    PartitionCount,
    ConsumerRate,
    ProducerRate,
    RequestRate,
}

impl LimitValueSecretCountName {
    /// The text that names the value on the wire.
    pub open spec fn wire(self) -> Seq<char> {
        match self {
            LimitValueSecretCountName::Cpu => "cpu"@,
            LimitValueSecretCountName::Mem => "mem"@,
            LimitValueSecretCountName::CertificateCount => "certificateCount"@,
            LimitValueSecretCountName::SecretCount => "secretCount"@,
            LimitValueSecretCountName::TopicCount => "topicCount"@,
            LimitValueSecretCountName::PartitionCount => "partitionCount"@,
            LimitValueSecretCountName::ConsumerRate => "consumerRate"@,
            LimitValueSecretCountName::ProducerRate => "producerRate"@,
            LimitValueSecretCountName::RequestRate => "requestRate"@,
        }
    }

    /// The value that a text names, if it names one.
    pub open spec fn from_wire(s: Seq<char>) -> Result<LimitValueSecretCountName, ConversionError> {
        if s == "cpu"@ {
            Ok(LimitValueSecretCountName::Cpu)
        } else if s == "mem"@ {
            Ok(LimitValueSecretCountName::Mem)
        } else if s == "certificateCount"@ {
            Ok(LimitValueSecretCountName::CertificateCount)
        } else if s == "secretCount"@ {
            Ok(LimitValueSecretCountName::SecretCount)
        } else if s == "topicCount"@ {
            Ok(LimitValueSecretCountName::TopicCount)
        } else if s == "partitionCount"@ {
            Ok(LimitValueSecretCountName::PartitionCount)
        } else if s == "consumerRate"@ {
            Ok(LimitValueSecretCountName::ConsumerRate)
        } else if s == "producerRate"@ {
            Ok(LimitValueSecretCountName::ProducerRate)
        } else if s == "requestRate"@ {
            Ok(LimitValueSecretCountName::RequestRate)
        } else {
            Err(ConversionError::from_static("invalid value"))
        }
    }

    /// The text that names the value on the wire.
    pub fn to_string(&self) -> (res: String)
        ensures
            res@ == self.wire(),
    {
        match *self {
            LimitValueSecretCountName::Cpu => String::from_str("cpu"),
            LimitValueSecretCountName::Mem => String::from_str("mem"),
            LimitValueSecretCountName::CertificateCount => String::from_str("certificateCount"),
            LimitValueSecretCountName::SecretCount => String::from_str("secretCount"),
            LimitValueSecretCountName::TopicCount => String::from_str("topicCount"),
            LimitValueSecretCountName::PartitionCount => String::from_str("partitionCount"),
            LimitValueSecretCountName::ConsumerRate => String::from_str("consumerRate"),
            LimitValueSecretCountName::ProducerRate => String::from_str("producerRate"),
            LimitValueSecretCountName::RequestRate => String::from_str("requestRate"),
        }
    }

    /// The value that `value` names; any other text is refused.
    pub fn from_str(value: &str) -> (res: Result<LimitValueSecretCountName, ConversionError>)
        ensures
            res == LimitValueSecretCountName::from_wire(value@),
    {
        if str_equals(value, "cpu") {
            Ok(LimitValueSecretCountName::Cpu)
        } else if str_equals(value, "mem") {
            Ok(LimitValueSecretCountName::Mem)
        } else if str_equals(value, "certificateCount") {
            Ok(LimitValueSecretCountName::CertificateCount)
        } else if str_equals(value, "secretCount") {
            Ok(LimitValueSecretCountName::SecretCount)
        } else if str_equals(value, "topicCount") {
            Ok(LimitValueSecretCountName::TopicCount)
        } else if str_equals(value, "partitionCount") {
            Ok(LimitValueSecretCountName::PartitionCount)
        } else if str_equals(value, "consumerRate") {
            Ok(LimitValueSecretCountName::ConsumerRate)
        } else if str_equals(value, "producerRate") {
            Ok(LimitValueSecretCountName::ProducerRate)
        } else if str_equals(value, "requestRate") {
            Ok(LimitValueSecretCountName::RequestRate)
        } else {
            Err(ConversionError::from("invalid value"))
        }
    }

    /// Reading back the wire name of a value gives that value.
    pub proof fn lemma_wire_round_trip(self)
        ensures
            LimitValueSecretCountName::from_wire(self.wire()) == Ok::<LimitValueSecretCountName, ConversionError>(self),
    {
        reveal_strlit("cpu");
        reveal_strlit("mem");
        reveal_strlit("certificateCount");
        reveal_strlit("secretCount");
        reveal_strlit("topicCount");
        reveal_strlit("partitionCount");
        reveal_strlit("consumerRate");
        reveal_strlit("producerRate");
        reveal_strlit("requestRate");
        assert("cpu"@.len() == 3);
        assert("mem"@.len() == 3);
        assert("certificateCount"@.len() == 16);
        assert("secretCount"@.len() == 11);
        assert("topicCount"@.len() == 10);
        assert("partitionCount"@.len() == 14);
        assert("consumerRate"@.len() == 12);
        assert("producerRate"@.len() == 12);
        assert("requestRate"@.len() == 11);
        assert("mem"@[0] != "cpu"@[0]);
        assert("producerRate"@[0] != "consumerRate"@[0]);
        assert("requestRate"@[0] != "secretCount"@[0]);
    }

    /// A text that is read as a value is that value's wire name.
    pub proof fn lemma_wire_names_only(s: Seq<char>)
        ensures
            LimitValueSecretCountName::from_wire(s) matches Ok(v) ==> v.wire() == s,
    {
    }
}

impl From<&LimitValueSecretCountName> for LimitValueSecretCountName {
    fn from(value: &LimitValueSecretCountName) -> (res: Self) {
        *value
    }
}

impl vstd::std_specs::convert::FromSpecImpl<&LimitValueSecretCountName> for LimitValueSecretCountName {
    open spec fn obeys_from_spec() -> bool {
        true
    }

    open spec fn from_spec(v: &LimitValueSecretCountName) -> LimitValueSecretCountName {
        *v
    }
}

impl std::str::FromStr for LimitValueSecretCountName {
    type Err = ConversionError;

    fn from_str(value: &str) -> (res: Result<Self, ConversionError>)
        ensures
            res == LimitValueSecretCountName::from_wire(value@),
    {
        LimitValueSecretCountName::from_str(value)
    }
}

impl std::convert::TryFrom<&str> for LimitValueSecretCountName {
    type Error = ConversionError;

    fn try_from(value: &str) -> (res: Result<Self, ConversionError>) {
        LimitValueSecretCountName::from_str(value)
    }
}

impl vstd::std_specs::convert::TryFromSpecImpl<&str> for LimitValueSecretCountName {
    open spec fn obeys_try_from_spec() -> bool {
        true
    }

    open spec fn try_from_spec(v: &str) -> Result<Self, ConversionError> {
        LimitValueSecretCountName::from_wire(v@)
    }
}

impl std::convert::TryFrom<&String> for LimitValueSecretCountName {
    type Error = ConversionError;

    fn try_from(value: &String) -> (res: Result<Self, ConversionError>) {
        LimitValueSecretCountName::from_str(value.as_str())
    }
}

impl vstd::std_specs::convert::TryFromSpecImpl<&String> for LimitValueSecretCountName {
    open spec fn obeys_try_from_spec() -> bool {
        true
    }

    open spec fn try_from_spec(v: &String) -> Result<Self, ConversionError> {
        LimitValueSecretCountName::from_wire(v@)
    }
}

impl std::convert::TryFrom<String> for LimitValueSecretCountName {
    type Error = ConversionError;

    fn try_from(value: String) -> (res: Result<Self, ConversionError>) {
        LimitValueSecretCountName::from_str(value.as_str())
    }
}

impl vstd::std_specs::convert::TryFromSpecImpl<String> for LimitValueSecretCountName {
    open spec fn obeys_try_from_spec() -> bool {
        true
    }

    open spec fn try_from_spec(v: String) -> Result<Self, ConversionError> {
        LimitValueSecretCountName::from_wire(v@)
    }
}

/// The kind of limit that a limit value sets.
#[derive(Clone, Copy, Debug, Eq, Hash, Ord, PartialEq, PartialOrd, Structural)]
pub enum LimitValueTopicCountName {
    Cpu,
    Mem,
    CertificateCount,
    SecretCount,
    TopicCount,
    PartitionCount,
    ConsumerRate,
    ProducerRate,
    RequestRate,
}

impl LimitValueTopicCountName {
    /// The text that names the value on the wire.
    pub open spec fn wire(self) -> Seq<char> {
        match self {
            LimitValueTopicCountName::Cpu => "cpu"@,
            LimitValueTopicCountName::Mem => "mem"@,
            LimitValueTopicCountName::CertificateCount => "certificateCount"@,
            LimitValueTopicCountName::SecretCount => "secretCount"@,
            LimitValueTopicCountName::TopicCount => "topicCount"@,
            LimitValueTopicCountName::PartitionCount => "partitionCount"@,
            LimitValueTopicCountName::ConsumerRate => "consumerRate"@,
            LimitValueTopicCountName::ProducerRate => "producerRate"@,
            LimitValueTopicCountName::RequestRate => "requestRate"@,
        }
    }

    /// The value that a text names, if it names one.
    pub open spec fn from_wire(s: Seq<char>) -> Result<LimitValueTopicCountName, ConversionError> {
        if s == "cpu"@ {
            Ok(LimitValueTopicCountName::Cpu)
        } else if s == "mem"@ {
            Ok(LimitValueTopicCountName::Mem)
        } else if s == "certificateCount"@ {
            Ok(LimitValueTopicCountName::CertificateCount)
        } else if s == "secretCount"@ {
            Ok(LimitValueTopicCountName::SecretCount)
        } else if s == "topicCount"@ {
            Ok(LimitValueTopicCountName::TopicCount)
        } else if s == "partitionCount"@ {
            Ok(LimitValueTopicCountName::PartitionCount)
        } else if s == "consumerRate"@ {
            Ok(LimitValueTopicCountName::ConsumerRate)
        } else if s == "producerRate"@ {
            Ok(LimitValueTopicCountName::ProducerRate)
        } else if s == "requestRate"@ {
            Ok(LimitValueTopicCountName::RequestRate)
        } else {
            Err(ConversionError::from_static("invalid value"))
        }
    }

    /// The text that names the value on the wire.
    pub fn to_string(&self) -> (res: String)
        ensures
            res@ == self.wire(),
    {
        match *self {
            LimitValueTopicCountName::Cpu => String::from_str("cpu"),
            LimitValueTopicCountName::Mem => String::from_str("mem"),
            LimitValueTopicCountName::CertificateCount => String::from_str("certificateCount"),
            LimitValueTopicCountName::SecretCount => String::from_str("secretCount"),
            LimitValueTopicCountName::TopicCount => String::from_str("topicCount"),
            LimitValueTopicCountName::PartitionCount => String::from_str("partitionCount"),
            LimitValueTopicCountName::ConsumerRate => String::from_str("consumerRate"),
            LimitValueTopicCountName::ProducerRate => String::from_str("producerRate"),
            LimitValueTopicCountName::RequestRate => String::from_str("requestRate"),
        }
    }

    /// The value that `value` names; any other text is refused.
    pub fn from_str(value: &str) -> (res: Result<LimitValueTopicCountName, ConversionError>)
        ensures
            res == LimitValueTopicCountName::from_wire(value@),
    {
        if str_equals(value, "cpu") {
            Ok(LimitValueTopicCountName::Cpu)
        } else if str_equals(value, "mem") {
            Ok(LimitValueTopicCountName::Mem)
        } else if str_equals(value, "certificateCount") {
            Ok(LimitValueTopicCountName::CertificateCount)
        } else if str_equals(value, "secretCount") {
            Ok(LimitValueTopicCountName::SecretCount)
        } else if str_equals(value, "topicCount") {
            Ok(LimitValueTopicCountName::TopicCount)
        } else if str_equals(value, "partitionCount") {
            Ok(LimitValueTopicCountName::PartitionCount)
        } else if str_equals(value, "consumerRate") {
            Ok(LimitValueTopicCountName::ConsumerRate)
        } else if str_equals(value, "producerRate") {
            Ok(LimitValueTopicCountName::ProducerRate)
        } else if str_equals(value, "requestRate") {
            Ok(LimitValueTopicCountName::RequestRate)
        } else {
            Err(ConversionError::from("invalid value"))
        }
    }

    /// Reading back the wire name of a value gives that value.
    pub proof fn lemma_wire_round_trip(self)
        ensures
            LimitValueTopicCountName::from_wire(self.wire()) == Ok::<LimitValueTopicCountName, ConversionError>(self),
    {
        reveal_strlit("cpu");
        reveal_strlit("mem");
        reveal_strlit("certificateCount");
        reveal_strlit("secretCount");
        reveal_strlit("topicCount");
        reveal_strlit("partitionCount");
        reveal_strlit("consumerRate");
        reveal_strlit("producerRate");
        reveal_strlit("requestRate");
        assert("cpu"@.len() == 3);
        assert("mem"@.len() == 3);
        assert("certificateCount"@.len() == 16);
        assert("secretCount"@.len() == 11);
        assert("topicCount"@.len() == 10);
        assert("partitionCount"@.len() == 14);
        assert("consumerRate"@.len() == 12);
        assert("producerRate"@.len() == 12);
        assert("requestRate"@.len() == 11);
        assert("mem"@[0] != "cpu"@[0]);
        assert("producerRate"@[0] != "consumerRate"@[0]);
        assert("requestRate"@[0] != "secretCount"@[0]);
    }

    /// A text that is read as a value is that value's wire name.
    pub proof fn lemma_wire_names_only(s: Seq<char>)
        ensures
            LimitValueTopicCountName::from_wire(s) matches Ok(v) ==> v.wire() == s,
    {
    }
}

impl From<&LimitValueTopicCountName> for LimitValueTopicCountName {
    fn from(value: &LimitValueTopicCountName) -> (res: Self) {
        *value
    }
}

impl vstd::std_specs::convert::FromSpecImpl<&LimitValueTopicCountName> for LimitValueTopicCountName {
    open spec fn obeys_from_spec() -> bool {
        true
    }

    open spec fn from_spec(v: &LimitValueTopicCountName) -> LimitValueTopicCountName {
        *v
    }
}

impl std::str::FromStr for LimitValueTopicCountName {
    type Err = ConversionError;

    fn from_str(value: &str) -> (res: Result<Self, ConversionError>)
        ensures
            res == LimitValueTopicCountName::from_wire(value@),
    {
        LimitValueTopicCountName::from_str(value)
    }
}

impl std::convert::TryFrom<&str> for LimitValueTopicCountName {
    type Error = ConversionError;

    fn try_from(value: &str) -> (res: Result<Self, ConversionError>) {
        LimitValueTopicCountName::from_str(value)
    }
}

impl vstd::std_specs::convert::TryFromSpecImpl<&str> for LimitValueTopicCountName {
    open spec fn obeys_try_from_spec() -> bool {
        true
    }

    open spec fn try_from_spec(v: &str) -> Result<Self, ConversionError> {
        LimitValueTopicCountName::from_wire(v@)
    }
}

impl std::convert::TryFrom<&String> for LimitValueTopicCountName {
    type Error = ConversionError;

    fn try_from(value: &String) -> (res: Result<Self, ConversionError>) {
        LimitValueTopicCountName::from_str(value.as_str())
    }
}

impl vstd::std_specs::convert::TryFromSpecImpl<&String> for LimitValueTopicCountName {
    open spec fn obeys_try_from_spec() -> bool {
        true
    }

    open spec fn try_from_spec(v: &String) -> Result<Self, ConversionError> {
        LimitValueTopicCountName::from_wire(v@)
    }
}

impl std::convert::TryFrom<String> for LimitValueTopicCountName {
    type Error = ConversionError;

    fn try_from(value: String) -> (res: Result<Self, ConversionError>) {
        LimitValueTopicCountName::from_str(value.as_str())
    }
}

impl vstd::std_specs::convert::TryFromSpecImpl<String> for LimitValueTopicCountName {
    open spec fn obeys_try_from_spec() -> bool {
        true
    }

    open spec fn try_from_spec(v: String) -> Result<Self, ConversionError> {
        LimitValueTopicCountName::from_wire(v@)
    }
}

/// A service that can be enabled for a managed tenant.
#[derive(Clone, Copy, Debug, Eq, Hash, Ord, PartialEq, PartialOrd, Structural)]
pub enum ManagedTenantServicesName {
    Vpn,
    Tracing,
    Monitoring,
}

impl ManagedTenantServicesName {
    /// The text that names the value on the wire.
    pub open spec fn wire(self) -> Seq<char> {
        match self {
            ManagedTenantServicesName::Vpn => "vpn"@,
            ManagedTenantServicesName::Tracing => "tracing"@,
            ManagedTenantServicesName::Monitoring => "monitoring"@,
        }
    }

    /// The value that a text names, if it names one.
    pub open spec fn from_wire(s: Seq<char>) -> Result<ManagedTenantServicesName, ConversionError> {
        if s == "vpn"@ {
            Ok(ManagedTenantServicesName::Vpn)
        } else if s == "tracing"@ {
            Ok(ManagedTenantServicesName::Tracing)
        } else if s == "monitoring"@ {
            Ok(ManagedTenantServicesName::Monitoring)
        } else {
            Err(ConversionError::from_static("invalid value"))
        }
    }

    /// The text that names the value on the wire.
    pub fn to_string(&self) -> (res: String)
        ensures
            res@ == self.wire(),
    {
        match *self {
            ManagedTenantServicesName::Vpn => String::from_str("vpn"),
            ManagedTenantServicesName::Tracing => String::from_str("tracing"),
            ManagedTenantServicesName::Monitoring => String::from_str("monitoring"),
        }
    }

    /// The value that `value` names; any other text is refused.
    pub fn from_str(value: &str) -> (res: Result<ManagedTenantServicesName, ConversionError>)
        ensures
            res == ManagedTenantServicesName::from_wire(value@),
    {
        if str_equals(value, "vpn") {
            Ok(ManagedTenantServicesName::Vpn)
        } else if str_equals(value, "tracing") {
            Ok(ManagedTenantServicesName::Tracing)
        } else if str_equals(value, "monitoring") {
            Ok(ManagedTenantServicesName::Monitoring)
        } else {
            Err(ConversionError::from("invalid value"))
        }
    }

    /// Reading back the wire name of a value gives that value.
    pub proof fn lemma_wire_round_trip(self)
        ensures
            ManagedTenantServicesName::from_wire(self.wire()) == Ok::<ManagedTenantServicesName, ConversionError>(self),
    {
        reveal_strlit("vpn");
        reveal_strlit("tracing");
        reveal_strlit("monitoring");
        assert("vpn"@.len() == 3);
        assert("tracing"@.len() == 7);
        assert("monitoring"@.len() == 10);
    }

    /// A text that is read as a value is that value's wire name.
    pub proof fn lemma_wire_names_only(s: Seq<char>)
        ensures
            ManagedTenantServicesName::from_wire(s) matches Ok(v) ==> v.wire() == s,
    {
    }
}

impl From<&ManagedTenantServicesName> for ManagedTenantServicesName {
    fn from(value: &ManagedTenantServicesName) -> (res: Self) {
        *value
    }
}

impl vstd::std_specs::convert::FromSpecImpl<&ManagedTenantServicesName> for ManagedTenantServicesName {
    open spec fn obeys_from_spec() -> bool {
        true
    }

    open spec fn from_spec(v: &ManagedTenantServicesName) -> ManagedTenantServicesName {
        *v
    }
}

impl std::str::FromStr for ManagedTenantServicesName {
    type Err = ConversionError;

    fn from_str(value: &str) -> (res: Result<Self, ConversionError>)
        ensures
            res == ManagedTenantServicesName::from_wire(value@),
    {
        ManagedTenantServicesName::from_str(value)
    }
}

impl std::convert::TryFrom<&str> for ManagedTenantServicesName {
    type Error = ConversionError;

    fn try_from(value: &str) -> (res: Result<Self, ConversionError>) {
        ManagedTenantServicesName::from_str(value)
    }
}

impl vstd::std_specs::convert::TryFromSpecImpl<&str> for ManagedTenantServicesName {
    open spec fn obeys_try_from_spec() -> bool {
        true
    }

    open spec fn try_from_spec(v: &str) -> Result<Self, ConversionError> {
        ManagedTenantServicesName::from_wire(v@)
    }
}

impl std::convert::TryFrom<&String> for ManagedTenantServicesName {
    type Error = ConversionError;

    fn try_from(value: &String) -> (res: Result<Self, ConversionError>) {
        ManagedTenantServicesName::from_str(value.as_str())
    }
}

impl vstd::std_specs::convert::TryFromSpecImpl<&String> for ManagedTenantServicesName {
    open spec fn obeys_try_from_spec() -> bool {
        true
    }

    open spec fn try_from_spec(v: &String) -> Result<Self, ConversionError> {
        ManagedTenantServicesName::from_wire(v@)
    }
}

impl std::convert::TryFrom<String> for ManagedTenantServicesName {
    type Error = ConversionError;

    fn try_from(value: String) -> (res: Result<Self, ConversionError>) {
        ManagedTenantServicesName::from_str(value.as_str())
    }
}

impl vstd::std_specs::convert::TryFromSpecImpl<String> for ManagedTenantServicesName {
    open spec fn obeys_try_from_spec() -> bool {
        true
    }

    open spec fn try_from_spec(v: String) -> Result<Self, ConversionError> {
        ManagedTenantServicesName::from_wire(v@)
    }
}

/// Whether the platform terminates TLS on a port mapping (auto) or not (none).
#[derive(Clone, Copy, Debug, Eq, Hash, Ord, PartialEq, PartialOrd, Structural)]
pub enum PortMappingTls {
    Auto,
    NoTls,
}

impl PortMappingTls {
    /// The text that names the value on the wire.
    pub open spec fn wire(self) -> Seq<char> {
        match self {
            PortMappingTls::Auto => "auto"@,
            PortMappingTls::NoTls => "none"@,
        }
    }

    /// The value that a text names, if it names one.
    pub open spec fn from_wire(s: Seq<char>) -> Result<PortMappingTls, ConversionError> {
        if s == "auto"@ {
            Ok(PortMappingTls::Auto)
        } else if s == "none"@ {
            Ok(PortMappingTls::NoTls)
        } else {
            Err(ConversionError::from_static("invalid value"))
        }
    }

    /// The text that names the value on the wire.
    pub fn to_string(&self) -> (res: String)
        ensures
            res@ == self.wire(),
    {
        match *self {
            PortMappingTls::Auto => String::from_str("auto"),
            PortMappingTls::NoTls => String::from_str("none"),
        }
    }

    /// The value that `value` names; any other text is refused.
    pub fn from_str(value: &str) -> (res: Result<PortMappingTls, ConversionError>)
        ensures
            res == PortMappingTls::from_wire(value@),
    {
        if str_equals(value, "auto") {
            Ok(PortMappingTls::Auto)
        } else if str_equals(value, "none") {
            Ok(PortMappingTls::NoTls)
        } else {
            Err(ConversionError::from("invalid value"))
        }
    }

    /// Reading back the wire name of a value gives that value.
    pub proof fn lemma_wire_round_trip(self)
        ensures
            PortMappingTls::from_wire(self.wire()) == Ok::<PortMappingTls, ConversionError>(self),
    {
        reveal_strlit("auto");
        reveal_strlit("none");
        assert("auto"@.len() == 4);
        assert("none"@.len() == 4);
        assert("none"@[0] != "auto"@[0]);
    }

    /// A text that is read as a value is that value's wire name.
    pub proof fn lemma_wire_names_only(s: Seq<char>)
        ensures
            PortMappingTls::from_wire(s) matches Ok(v) ==> v.wire() == s,
    {
    }
}

impl From<&PortMappingTls> for PortMappingTls {
    fn from(value: &PortMappingTls) -> (res: Self) {
        *value
    }
}

impl vstd::std_specs::convert::FromSpecImpl<&PortMappingTls> for PortMappingTls {
    open spec fn obeys_from_spec() -> bool {
        true
    }

    open spec fn from_spec(v: &PortMappingTls) -> PortMappingTls {
        *v
    }
}

impl std::str::FromStr for PortMappingTls {
    type Err = ConversionError;

    fn from_str(value: &str) -> (res: Result<Self, ConversionError>)
        ensures
            res == PortMappingTls::from_wire(value@),
    {
        PortMappingTls::from_str(value)
    }
}

impl std::convert::TryFrom<&str> for PortMappingTls {
    type Error = ConversionError;

    fn try_from(value: &str) -> (res: Result<Self, ConversionError>) {
        PortMappingTls::from_str(value)
    }
}

impl vstd::std_specs::convert::TryFromSpecImpl<&str> for PortMappingTls {
    open spec fn obeys_try_from_spec() -> bool {
        true
    }

    open spec fn try_from_spec(v: &str) -> Result<Self, ConversionError> {
        PortMappingTls::from_wire(v@)
    }
}

impl std::convert::TryFrom<&String> for PortMappingTls {
    type Error = ConversionError;

    fn try_from(value: &String) -> (res: Result<Self, ConversionError>) {
        PortMappingTls::from_str(value.as_str())
    }
}

impl vstd::std_specs::convert::TryFromSpecImpl<&String> for PortMappingTls {
    open spec fn obeys_try_from_spec() -> bool {
        true
    }

    open spec fn try_from_spec(v: &String) -> Result<Self, ConversionError> {
        PortMappingTls::from_wire(v@)
    }
}

impl std::convert::TryFrom<String> for PortMappingTls {
    type Error = ConversionError;

    fn try_from(value: String) -> (res: Result<Self, ConversionError>) {
        PortMappingTls::from_str(value.as_str())
    }
}

impl vstd::std_specs::convert::TryFromSpecImpl<String> for PortMappingTls {
    open spec fn obeys_try_from_spec() -> bool {
        true
    }

    open spec fn try_from_spec(v: String) -> Result<Self, ConversionError> {
        PortMappingTls::from_wire(v@)
    }
}

/// The kind of limit named in the path of a limit request.
#[derive(Clone, Copy, Debug, Eq, Hash, Ord, PartialEq, PartialOrd, Structural)]
pub enum PutManageByManagerTenantByTenantLimitByKindKind {
    Cpu,
    Mem,
    Certificatecount,
    Secretcount,
    Topiccount,
    Partitioncount,
    Consumerrate,
    Producerrate,
    Requestrate,
}

impl PutManageByManagerTenantByTenantLimitByKindKind {
    /// The text that names the value on the wire.
    pub open spec fn wire(self) -> Seq<char> {
        match self {
            PutManageByManagerTenantByTenantLimitByKindKind::Cpu => "cpu"@,
            PutManageByManagerTenantByTenantLimitByKindKind::Mem => "mem"@,
            PutManageByManagerTenantByTenantLimitByKindKind::Certificatecount => "certificatecount"@,
            PutManageByManagerTenantByTenantLimitByKindKind::Secretcount => "secretcount"@,
            PutManageByManagerTenantByTenantLimitByKindKind::Topiccount => "topiccount"@,
            PutManageByManagerTenantByTenantLimitByKindKind::Partitioncount => "partitioncount"@,
            PutManageByManagerTenantByTenantLimitByKindKind::Consumerrate => "consumerrate"@,
            PutManageByManagerTenantByTenantLimitByKindKind::Producerrate => "producerrate"@,
            PutManageByManagerTenantByTenantLimitByKindKind::Requestrate => "requestrate"@,
        }
    }

    /// The value that a text names, if it names one.
    pub open spec fn from_wire(s: Seq<char>) -> Result<PutManageByManagerTenantByTenantLimitByKindKind, ConversionError> {
        if s == "cpu"@ {
            Ok(PutManageByManagerTenantByTenantLimitByKindKind::Cpu)
        } else if s == "mem"@ {
            Ok(PutManageByManagerTenantByTenantLimitByKindKind::Mem)
        } else if s == "certificatecount"@ {
            Ok(PutManageByManagerTenantByTenantLimitByKindKind::Certificatecount)
        } else if s == "secretcount"@ {
            Ok(PutManageByManagerTenantByTenantLimitByKindKind::Secretcount)
        } else if s == "topiccount"@ {
            Ok(PutManageByManagerTenantByTenantLimitByKindKind::Topiccount)
        } else if s == "partitioncount"@ {
            Ok(PutManageByManagerTenantByTenantLimitByKindKind::Partitioncount)
        } else if s == "consumerrate"@ {
            Ok(PutManageByManagerTenantByTenantLimitByKindKind::Consumerrate)
        } else if s == "producerrate"@ {
            Ok(PutManageByManagerTenantByTenantLimitByKindKind::Producerrate)
        } else if s == "requestrate"@ {
            Ok(PutManageByManagerTenantByTenantLimitByKindKind::Requestrate)
        } else {
            Err(ConversionError::from_static("invalid value"))
        }
    }

    /// The text that names the value on the wire.
    pub fn to_string(&self) -> (res: String)
        ensures
            res@ == self.wire(),
    {
        match *self {
            PutManageByManagerTenantByTenantLimitByKindKind::Cpu => String::from_str("cpu"),
            PutManageByManagerTenantByTenantLimitByKindKind::Mem => String::from_str("mem"),
            PutManageByManagerTenantByTenantLimitByKindKind::Certificatecount => String::from_str("certificatecount"),
            PutManageByManagerTenantByTenantLimitByKindKind::Secretcount => String::from_str("secretcount"),
            PutManageByManagerTenantByTenantLimitByKindKind::Topiccount => String::from_str("topiccount"),
            PutManageByManagerTenantByTenantLimitByKindKind::Partitioncount => String::from_str("partitioncount"),
            PutManageByManagerTenantByTenantLimitByKindKind::Consumerrate => String::from_str("consumerrate"),
            PutManageByManagerTenantByTenantLimitByKindKind::Producerrate => String::from_str("producerrate"),
            PutManageByManagerTenantByTenantLimitByKindKind::Requestrate => String::from_str("requestrate"),
        }
    }

    /// The value that `value` names; any other text is refused.
    pub fn from_str(value: &str) -> (res: Result<PutManageByManagerTenantByTenantLimitByKindKind, ConversionError>)
        ensures
            res == PutManageByManagerTenantByTenantLimitByKindKind::from_wire(value@),
    {
        if str_equals(value, "cpu") {
            Ok(PutManageByManagerTenantByTenantLimitByKindKind::Cpu)
        } else if str_equals(value, "mem") {
            Ok(PutManageByManagerTenantByTenantLimitByKindKind::Mem)
        } else if str_equals(value, "certificatecount") {
            Ok(PutManageByManagerTenantByTenantLimitByKindKind::Certificatecount)
        } else if str_equals(value, "secretcount") {
            Ok(PutManageByManagerTenantByTenantLimitByKindKind::Secretcount)
        } else if str_equals(value, "topiccount") {
            Ok(PutManageByManagerTenantByTenantLimitByKindKind::Topiccount)
        } else if str_equals(value, "partitioncount") {
            Ok(PutManageByManagerTenantByTenantLimitByKindKind::Partitioncount)
        } else if str_equals(value, "consumerrate") {
            Ok(PutManageByManagerTenantByTenantLimitByKindKind::Consumerrate)
        } else if str_equals(value, "producerrate") {
            Ok(PutManageByManagerTenantByTenantLimitByKindKind::Producerrate)
        } else if str_equals(value, "requestrate") {
            Ok(PutManageByManagerTenantByTenantLimitByKindKind::Requestrate)
        } else {
            Err(ConversionError::from("invalid value"))
        }
    }

    /// Reading back the wire name of a value gives that value.
    pub proof fn lemma_wire_round_trip(self)
        ensures
            PutManageByManagerTenantByTenantLimitByKindKind::from_wire(self.wire()) == Ok::<PutManageByManagerTenantByTenantLimitByKindKind, ConversionError>(self),
    {
        reveal_strlit("cpu");
        reveal_strlit("mem");
        reveal_strlit("certificatecount");
        reveal_strlit("secretcount");
        reveal_strlit("topiccount");
        reveal_strlit("partitioncount");
        reveal_strlit("consumerrate");
        reveal_strlit("producerrate");
        reveal_strlit("requestrate");
        assert("cpu"@.len() == 3);
        assert("mem"@.len() == 3);
        assert("certificatecount"@.len() == 16);
        assert("secretcount"@.len() == 11);
        assert("topiccount"@.len() == 10);
        assert("partitioncount"@.len() == 14);
        assert("consumerrate"@.len() == 12);
        assert("producerrate"@.len() == 12);
        assert("requestrate"@.len() == 11);
        assert("mem"@[0] != "cpu"@[0]);
        assert("producerrate"@[0] != "consumerrate"@[0]);
        assert("requestrate"@[0] != "secretcount"@[0]);
    }

    /// A text that is read as a value is that value's wire name.
    pub proof fn lemma_wire_names_only(s: Seq<char>)
        ensures
            PutManageByManagerTenantByTenantLimitByKindKind::from_wire(s) matches Ok(v) ==> v.wire() == s,
    {
    }
}

impl From<&PutManageByManagerTenantByTenantLimitByKindKind> for PutManageByManagerTenantByTenantLimitByKindKind {
    fn from(value: &PutManageByManagerTenantByTenantLimitByKindKind) -> (res: Self) {
        *value
    }
}

impl vstd::std_specs::convert::FromSpecImpl<&PutManageByManagerTenantByTenantLimitByKindKind> for PutManageByManagerTenantByTenantLimitByKindKind {
    open spec fn obeys_from_spec() -> bool {
        true
    }

    open spec fn from_spec(v: &PutManageByManagerTenantByTenantLimitByKindKind) -> PutManageByManagerTenantByTenantLimitByKindKind {
        *v
    }
}

impl std::str::FromStr for PutManageByManagerTenantByTenantLimitByKindKind {
    type Err = ConversionError;

    fn from_str(value: &str) -> (res: Result<Self, ConversionError>)
        ensures
            res == PutManageByManagerTenantByTenantLimitByKindKind::from_wire(value@),
    {
        PutManageByManagerTenantByTenantLimitByKindKind::from_str(value)
    }
}

impl std::convert::TryFrom<&str> for PutManageByManagerTenantByTenantLimitByKindKind {
    type Error = ConversionError;

    fn try_from(value: &str) -> (res: Result<Self, ConversionError>) {
        PutManageByManagerTenantByTenantLimitByKindKind::from_str(value)
    }
}

impl vstd::std_specs::convert::TryFromSpecImpl<&str> for PutManageByManagerTenantByTenantLimitByKindKind {
    open spec fn obeys_try_from_spec() -> bool {
        true
    }

    open spec fn try_from_spec(v: &str) -> Result<Self, ConversionError> {
        PutManageByManagerTenantByTenantLimitByKindKind::from_wire(v@)
    }
}

impl std::convert::TryFrom<&String> for PutManageByManagerTenantByTenantLimitByKindKind {
    type Error = ConversionError;

    fn try_from(value: &String) -> (res: Result<Self, ConversionError>) {
        PutManageByManagerTenantByTenantLimitByKindKind::from_str(value.as_str())
    }
}

impl vstd::std_specs::convert::TryFromSpecImpl<&String> for PutManageByManagerTenantByTenantLimitByKindKind {
    open spec fn obeys_try_from_spec() -> bool {
        true
    }

    open spec fn try_from_spec(v: &String) -> Result<Self, ConversionError> {
        PutManageByManagerTenantByTenantLimitByKindKind::from_wire(v@)
    }
}

impl std::convert::TryFrom<String> for PutManageByManagerTenantByTenantLimitByKindKind {
    type Error = ConversionError;

    fn try_from(value: String) -> (res: Result<Self, ConversionError>) {
        PutManageByManagerTenantByTenantLimitByKindKind::from_str(value.as_str())
    }
}

impl vstd::std_specs::convert::TryFromSpecImpl<String> for PutManageByManagerTenantByTenantLimitByKindKind {
    open spec fn obeys_try_from_spec() -> bool {
        true
    }

    open spec fn try_from_spec(v: String) -> Result<Self, ConversionError> {
        PutManageByManagerTenantByTenantLimitByKindKind::from_wire(v@)
    }
}

/// The state of a task of an application.
#[derive(Clone, Copy, Debug, Eq, Hash, Ord, PartialEq, PartialOrd, Structural)]
pub enum TaskState {
    Dropped,
    Error,
    Failed,
    Finished,
    Gone,
    GoneByOperator,
    Killed,
    Killing,
    Lost,
    Running,
    Staging,
    Starting,
    Unknown,
    Unreachable,
}

impl TaskState {
    /// The text that names the value on the wire.
    pub open spec fn wire(self) -> Seq<char> {
        match self {
            TaskState::Dropped => "DROPPED"@,
            TaskState::Error => "ERROR"@,
            TaskState::Failed => "FAILED"@,
            TaskState::Finished => "FINISHED"@,
            TaskState::Gone => "GONE"@,
            TaskState::GoneByOperator => "GONE_BY_OPERATOR"@,
            TaskState::Killed => "KILLED"@,
            TaskState::Killing => "KILLING"@,
            TaskState::Lost => "LOST"@,
            TaskState::Running => "RUNNING"@,
            TaskState::Staging => "STAGING"@,
            TaskState::Starting => "STARTING"@,
            TaskState::Unknown => "UNKNOWN"@,
            TaskState::Unreachable => "UNREACHABLE"@,
        }
    }

    /// The value that a text names, if it names one.
    pub open spec fn from_wire(s: Seq<char>) -> Result<TaskState, ConversionError> {
        if s == "DROPPED"@ {
            Ok(TaskState::Dropped)
        } else if s == "ERROR"@ {
            Ok(TaskState::Error)
        } else if s == "FAILED"@ {
            Ok(TaskState::Failed)
        } else if s == "FINISHED"@ {
            Ok(TaskState::Finished)
        } else if s == "GONE"@ {
            Ok(TaskState::Gone)
        } else if s == "GONE_BY_OPERATOR"@ {
            Ok(TaskState::GoneByOperator)
        } else if s == "KILLED"@ {
            Ok(TaskState::Killed)
        } else if s == "KILLING"@ {
            Ok(TaskState::Killing)
        } else if s == "LOST"@ {
            Ok(TaskState::Lost)
        } else if s == "RUNNING"@ {
            Ok(TaskState::Running)
        } else if s == "STAGING"@ {
            Ok(TaskState::Staging)
        } else if s == "STARTING"@ {
            Ok(TaskState::Starting)
        } else if s == "UNKNOWN"@ {
            Ok(TaskState::Unknown)
        } else if s == "UNREACHABLE"@ {
            Ok(TaskState::Unreachable)
        } else {
            Err(ConversionError::from_static("invalid value"))
        }
    }

    /// The text that names the value on the wire.
    pub fn to_string(&self) -> (res: String)
        ensures
            res@ == self.wire(),
    {
        match *self {
            TaskState::Dropped => String::from_str("DROPPED"),
            TaskState::Error => String::from_str("ERROR"),
            TaskState::Failed => String::from_str("FAILED"),
            TaskState::Finished => String::from_str("FINISHED"),
            TaskState::Gone => String::from_str("GONE"),
            TaskState::GoneByOperator => String::from_str("GONE_BY_OPERATOR"),
            TaskState::Killed => String::from_str("KILLED"),
            TaskState::Killing => String::from_str("KILLING"),
            TaskState::Lost => String::from_str("LOST"),
            TaskState::Running => String::from_str("RUNNING"),
            TaskState::Staging => String::from_str("STAGING"),
            TaskState::Starting => String::from_str("STARTING"),
            TaskState::Unknown => String::from_str("UNKNOWN"),
            TaskState::Unreachable => String::from_str("UNREACHABLE"),
        }
    }

    /// The value that `value` names; any other text is refused.
    pub fn from_str(value: &str) -> (res: Result<TaskState, ConversionError>)
        ensures
            res == TaskState::from_wire(value@),
    {
        if str_equals(value, "DROPPED") {
            Ok(TaskState::Dropped)
        } else if str_equals(value, "ERROR") {
            Ok(TaskState::Error)
        } else if str_equals(value, "FAILED") {
            Ok(TaskState::Failed)
        } else if str_equals(value, "FINISHED") {
            Ok(TaskState::Finished)
        } else if str_equals(value, "GONE") {
            Ok(TaskState::Gone)
        } else if str_equals(value, "GONE_BY_OPERATOR") {
            Ok(TaskState::GoneByOperator)
        } else if str_equals(value, "KILLED") {
            Ok(TaskState::Killed)
        } else if str_equals(value, "KILLING") {
            Ok(TaskState::Killing)
        } else if str_equals(value, "LOST") {
            Ok(TaskState::Lost)
        } else if str_equals(value, "RUNNING") {
            Ok(TaskState::Running)
        } else if str_equals(value, "STAGING") {
            Ok(TaskState::Staging)
        } else if str_equals(value, "STARTING") {
            Ok(TaskState::Starting)
        } else if str_equals(value, "UNKNOWN") {
            Ok(TaskState::Unknown)
        } else if str_equals(value, "UNREACHABLE") {
            Ok(TaskState::Unreachable)
        } else {
            Err(ConversionError::from("invalid value"))
        }
    }

    /// Reading back the wire name of a value gives that value.
    pub proof fn lemma_wire_round_trip(self)
        ensures
            TaskState::from_wire(self.wire()) == Ok::<TaskState, ConversionError>(self),
    {
        reveal_strlit("DROPPED");
        reveal_strlit("ERROR");
        reveal_strlit("FAILED");
        reveal_strlit("FINISHED");
        reveal_strlit("GONE");
        reveal_strlit("GONE_BY_OPERATOR");
        reveal_strlit("KILLED");
        reveal_strlit("KILLING");
        reveal_strlit("LOST");
        reveal_strlit("RUNNING");
        reveal_strlit("STAGING");
        reveal_strlit("STARTING");
        reveal_strlit("UNKNOWN");
        reveal_strlit("UNREACHABLE");
        assert("DROPPED"@.len() == 7);
        assert("ERROR"@.len() == 5);
        assert("FAILED"@.len() == 6);
        assert("FINISHED"@.len() == 8);
        assert("GONE"@.len() == 4);
        assert("GONE_BY_OPERATOR"@.len() == 16);
        assert("KILLED"@.len() == 6);
        assert("KILLING"@.len() == 7);
        assert("LOST"@.len() == 4);
        assert("RUNNING"@.len() == 7);
        assert("STAGING"@.len() == 7);
        assert("STARTING"@.len() == 8);
        assert("UNKNOWN"@.len() == 7);
        assert("UNREACHABLE"@.len() == 11);
        assert("KILLED"@[0] != "FAILED"@[0]);
        assert("KILLING"@[0] != "DROPPED"@[0]);
        assert("LOST"@[0] != "GONE"@[0]);
        assert("RUNNING"@[0] != "DROPPED"@[0]);
        assert("RUNNING"@[0] != "KILLING"@[0]);
        assert("STAGING"@[0] != "DROPPED"@[0]);
        assert("STAGING"@[0] != "KILLING"@[0]);
        assert("STAGING"@[0] != "RUNNING"@[0]);
        assert("STARTING"@[0] != "FINISHED"@[0]);
        assert("UNKNOWN"@[0] != "DROPPED"@[0]);
        assert("UNKNOWN"@[0] != "KILLING"@[0]);
        assert("UNKNOWN"@[0] != "RUNNING"@[0]);
        assert("UNKNOWN"@[0] != "STAGING"@[0]);
    }

    /// A text that is read as a value is that value's wire name.
    pub proof fn lemma_wire_names_only(s: Seq<char>)
        ensures
            TaskState::from_wire(s) matches Ok(v) ==> v.wire() == s,
    {
    }
}

impl From<&TaskState> for TaskState {
    fn from(value: &TaskState) -> (res: Self) {
        *value
    }
}

impl vstd::std_specs::convert::FromSpecImpl<&TaskState> for TaskState {
    open spec fn obeys_from_spec() -> bool {
        true
    }

    open spec fn from_spec(v: &TaskState) -> TaskState {
        *v
    }
}

impl std::str::FromStr for TaskState {
    type Err = ConversionError;

    fn from_str(value: &str) -> (res: Result<Self, ConversionError>)
        ensures
            res == TaskState::from_wire(value@),
    {
        TaskState::from_str(value)
    }
}

impl std::convert::TryFrom<&str> for TaskState {
    type Error = ConversionError;

    fn try_from(value: &str) -> (res: Result<Self, ConversionError>) {
        TaskState::from_str(value)
    }
}

impl vstd::std_specs::convert::TryFromSpecImpl<&str> for TaskState {
    open spec fn obeys_try_from_spec() -> bool {
        true
    }

    open spec fn try_from_spec(v: &str) -> Result<Self, ConversionError> {
        TaskState::from_wire(v@)
    }
}

impl std::convert::TryFrom<&String> for TaskState {
    type Error = ConversionError;

    fn try_from(value: &String) -> (res: Result<Self, ConversionError>) {
        TaskState::from_str(value.as_str())
    }
}

impl vstd::std_specs::convert::TryFromSpecImpl<&String> for TaskState {
    open spec fn obeys_try_from_spec() -> bool {
        true
    }

    open spec fn try_from_spec(v: &String) -> Result<Self, ConversionError> {
        TaskState::from_wire(v@)
    }
}

impl std::convert::TryFrom<String> for TaskState {
    type Error = ConversionError;

    fn try_from(value: String) -> (res: Result<Self, ConversionError>) {
        TaskState::from_str(value.as_str())
    }
}

impl vstd::std_specs::convert::TryFromSpecImpl<String> for TaskState {
    open spec fn obeys_try_from_spec() -> bool {
        true
    }

    open spec fn try_from_spec(v: String) -> Result<Self, ConversionError> {
        TaskState::from_wire(v@)
    }
}

/// A network available on the platform.
#[derive(Clone, Copy, Debug, Eq, Hash, Ord, PartialEq, PartialOrd, Structural)]
pub enum ZoneNetwork {
    Internal,
    Public,
}

impl ZoneNetwork {
    /// The text that names the value on the wire.
    pub open spec fn wire(self) -> Seq<char> {
        match self {
            ZoneNetwork::Internal => "internal"@,
            ZoneNetwork::Public => "public"@,
        }
    }

    /// The value that a text names, if it names one.
    pub open spec fn from_wire(s: Seq<char>) -> Result<ZoneNetwork, ConversionError> {
        if s == "internal"@ {
            Ok(ZoneNetwork::Internal)
        } else if s == "public"@ {
            Ok(ZoneNetwork::Public)
        } else {
            Err(ConversionError::from_static("invalid value"))
        }
    }

    /// The text that names the value on the wire.
    pub fn to_string(&self) -> (res: String)
        ensures
            res@ == self.wire(),
    {
        match *self {
            ZoneNetwork::Internal => String::from_str("internal"),
            ZoneNetwork::Public => String::from_str("public"),
        }
    }

    /// The value that `value` names; any other text is refused.
    pub fn from_str(value: &str) -> (res: Result<ZoneNetwork, ConversionError>)
        ensures
            res == ZoneNetwork::from_wire(value@),
    {
        if str_equals(value, "internal") {
            Ok(ZoneNetwork::Internal)
        } else if str_equals(value, "public") {
            Ok(ZoneNetwork::Public)
        } else {
            Err(ConversionError::from("invalid value"))
        }
    }

    /// Reading back the wire name of a value gives that value.
    pub proof fn lemma_wire_round_trip(self)
        ensures
            ZoneNetwork::from_wire(self.wire()) == Ok::<ZoneNetwork, ConversionError>(self),
    {
        reveal_strlit("internal");
        reveal_strlit("public");
        assert("internal"@.len() == 8);
        assert("public"@.len() == 6);
    }

    /// A text that is read as a value is that value's wire name.
    pub proof fn lemma_wire_names_only(s: Seq<char>)
        ensures
            ZoneNetwork::from_wire(s) matches Ok(v) ==> v.wire() == s,
    {
    }
}

impl From<&ZoneNetwork> for ZoneNetwork {
    fn from(value: &ZoneNetwork) -> (res: Self) {
        *value
    }
}

impl vstd::std_specs::convert::FromSpecImpl<&ZoneNetwork> for ZoneNetwork {
    open spec fn obeys_from_spec() -> bool {
        true
    }

    open spec fn from_spec(v: &ZoneNetwork) -> ZoneNetwork {
        *v
    }
}

impl std::str::FromStr for ZoneNetwork {
    type Err = ConversionError;

    fn from_str(value: &str) -> (res: Result<Self, ConversionError>)
        ensures
            res == ZoneNetwork::from_wire(value@),
    {
        ZoneNetwork::from_str(value)
    }
}

impl std::convert::TryFrom<&str> for ZoneNetwork {
    type Error = ConversionError;

    fn try_from(value: &str) -> (res: Result<Self, ConversionError>) {
        ZoneNetwork::from_str(value)
    }
}

impl vstd::std_specs::convert::TryFromSpecImpl<&str> for ZoneNetwork {
    open spec fn obeys_try_from_spec() -> bool {
        true
    }

    open spec fn try_from_spec(v: &str) -> Result<Self, ConversionError> {
        ZoneNetwork::from_wire(v@)
    }
}

impl std::convert::TryFrom<&String> for ZoneNetwork {
    type Error = ConversionError;

    fn try_from(value: &String) -> (res: Result<Self, ConversionError>) {
        ZoneNetwork::from_str(value.as_str())
    }
}

impl vstd::std_specs::convert::TryFromSpecImpl<&String> for ZoneNetwork {
    open spec fn obeys_try_from_spec() -> bool {
        true
    }

    open spec fn try_from_spec(v: &String) -> Result<Self, ConversionError> {
        ZoneNetwork::from_wire(v@)
    }
}

impl std::convert::TryFrom<String> for ZoneNetwork {
    type Error = ConversionError;

    fn try_from(value: String) -> (res: Result<Self, ConversionError>) {
        ZoneNetwork::from_str(value.as_str())
    }
}

impl vstd::std_specs::convert::TryFromSpecImpl<String> for ZoneNetwork {
    open spec fn obeys_try_from_spec() -> bool {
        true
    }

    open spec fn try_from_spec(v: String) -> Result<Self, ConversionError> {
        ZoneNetwork::from_wire(v@)
    }
}

} // verus!
