//! Log subjects of the AWS C libraries, their `log` targets, and the
//! mapping between AWS log levels and `log` levels.
use vstd::prelude::*;
use vstd::string::StringExecFns;
use crate::text::string_push;

verus! {

/// Number of bits of a log subject that number subjects inside a package.
pub const AWS_LOG_SUBJECT_STRIDE_BITS: u32 = 10;

/// Number of log subjects reserved for one package.
pub const SUBJECT_STRIDE: u32 = 1024;

pub const AWS_LS_COMMON_TASK_SCHEDULER: u32 = 1;
pub const AWS_LS_COMMON_THREAD: u32 = 2;
pub const AWS_LS_COMMON_MEMTRACE: u32 = 3;
pub const AWS_LS_COMMON_XML_PARSER: u32 = 4;
pub const AWS_LS_COMMON_IO: u32 = 5;
pub const AWS_LS_COMMON_BUS: u32 = 6;
pub const AWS_LS_COMMON_TEST: u32 = 7;
pub const AWS_LS_COMMON_JSON_PARSER: u32 = 8;

pub const AWS_LS_IO_EVENT_LOOP: u32 = 1025;
pub const AWS_LS_IO_SOCKET: u32 = 1026;
pub const AWS_LS_IO_SOCKET_HANDLER: u32 = 1027;
pub const AWS_LS_IO_TLS: u32 = 1028;
pub const AWS_LS_IO_ALPN: u32 = 1029;
pub const AWS_LS_IO_DNS: u32 = 1030;
pub const AWS_LS_IO_PKI: u32 = 1031;
pub const AWS_LS_IO_CHANNEL: u32 = 1032;
pub const AWS_LS_IO_CHANNEL_BOOTSTRAP: u32 = 1033;
pub const AWS_LS_IO_FILE_UTILS: u32 = 1034;
pub const AWS_LS_IO_SHARED_LIBRARY: u32 = 1035;
pub const AWS_LS_IO_EXPONENTIAL_BACKOFF_RETRY_STRATEGY: u32 = 1036;
pub const AWS_LS_IO_STANDARD_RETRY_STRATEGY: u32 = 1037;
pub const AWS_LS_IO_PKCS11: u32 = 1038;
pub const AWS_LS_IO_PEM: u32 = 1039;

pub const AWS_LS_HTTP_CONNECTION: u32 = 2049;
pub const AWS_LS_HTTP_ENCODER: u32 = 2050;
pub const AWS_LS_HTTP_DECODER: u32 = 2051;
pub const AWS_LS_HTTP_SERVER: u32 = 2052;
pub const AWS_LS_HTTP_STREAM: u32 = 2053;
pub const AWS_LS_HTTP_CONNECTION_MANAGER: u32 = 2054;
pub const AWS_LS_HTTP_STREAM_MANAGER: u32 = 2055;
pub const AWS_LS_HTTP_WEBSOCKET: u32 = 2056;
pub const AWS_LS_HTTP_WEBSOCKET_SETUP: u32 = 2057;
pub const AWS_LS_HTTP_PROXY_NEGOTIATION: u32 = 2058;

pub const AWS_LS_EVENT_STREAM_CHANNEL_HANDLER: u32 = 4097;
pub const AWS_LS_EVENT_STREAM_RPC_SERVER: u32 = 4098;
pub const AWS_LS_EVENT_STREAM_RPC_CLIENT: u32 = 4099;

pub const AWS_LS_MQTT_CLIENT: u32 = 5121;
pub const AWS_LS_MQTT_TOPIC_TREE: u32 = 5122;
pub const AWS_LS_MQTT5_GENERAL: u32 = 5123;
pub const AWS_LS_MQTT5_CLIENT: u32 = 5124;
pub const AWS_LS_MQTT5_CANARY: u32 = 5125;
pub const AWS_LS_MQTT5_TO_MQTT3_ADAPTER: u32 = 5126;

pub const AWS_LS_AUTH_PROFILE: u32 = 6145;
pub const AWS_LS_AUTH_CREDENTIALS_PROVIDER: u32 = 6146;
pub const AWS_LS_AUTH_SIGNING: u32 = 6147;
pub const AWS_LS_IMDS_CLIENT: u32 = 6148;

pub const AWS_LS_CAL_ECC: u32 = 7169;
pub const AWS_LS_CAL_HASH: u32 = 7170;
pub const AWS_LS_CAL_HMAC: u32 = 7171;
pub const AWS_LS_CAL_DER: u32 = 7172;
pub const AWS_LS_CAL_LIBCRYPTO_RESOLVE: u32 = 7173;
pub const AWS_LS_CAL_RSA: u32 = 7174;

pub const AWS_LS_IOTDEVICE_DEFENDER_TASK: u32 = 13312;
pub const AWS_LS_IOTDEVICE_DEFENDER_TASK_CONFIG: u32 = 13313;
pub const AWS_LS_IOTDEVICE_NETWORK_CONFIG: u32 = 13314;
pub const AWS_LS_IOTDEVICE_SECURE_TUNNELING: u32 = 13315;

pub const AWS_LS_S3_CLIENT: u32 = 14337;
pub const AWS_LS_S3_CLIENT_STATS: u32 = 14338;
pub const AWS_LS_S3_REQUEST: u32 = 14339;
pub const AWS_LS_S3_META_REQUEST: u32 = 14340;
pub const AWS_LS_S3_ENDPOINT: u32 = 14341;

pub const AWS_LS_SDKUTILS_PROFILE: u32 = 15361;
pub const AWS_LS_SDKUTILS_ENDPOINTS_PARSING: u32 = 15362;
pub const AWS_LS_SDKUTILS_ENDPOINTS_RESOLVE: u32 = 15363;
pub const AWS_LS_SDKUTILS_ENDPOINTS_GENERAL: u32 = 15364;
pub const AWS_LS_SDKUTILS_PARTITIONS_PARSING: u32 = 15365;

pub const AWS_C_COMMON_PACKAGE_ID: u32 = 0;
pub const AWS_C_IO_PACKAGE_ID: u32 = 1;
pub const AWS_C_HTTP_PACKAGE_ID: u32 = 2;
pub const AWS_C_COMPRESSION_PACKAGE_ID: u32 = 3;
pub const AWS_C_EVENT_STREAM_PACKAGE_ID: u32 = 4;
pub const AWS_C_MQTT_PACKAGE_ID: u32 = 5;
pub const AWS_C_AUTH_PACKAGE_ID: u32 = 6;
pub const AWS_C_CAL_PACKAGE_ID: u32 = 7;
pub const AWS_C_IOTDEVICE_PACKAGE_ID: u32 = 13;
pub const AWS_C_S3_PACKAGE_ID: u32 = 14;
pub const AWS_C_SDKUTILS_PACKAGE_ID: u32 = 15;

/// A log subject of the AWS C libraries.
#[derive(Clone, Copy, Debug, PartialEq, Eq, PartialOrd, Ord, Hash, Structural)]
pub struct Subject(pub u32);

/// A package (library) of the AWS C libraries, by its package id.
#[derive(Clone, Copy, Debug, PartialEq, Eq, Structural)]
pub struct PackageId(pub u32);

impl PackageId {
    /// The subjects that belong to this package, first and last included.
    /// The subject numbers are computed in 32 bits, so the range of a
    /// package id beyond the last package is the wrapped one.
    pub fn subject_range(self) -> (r: core::ops::RangeInclusive<Subject>)
        requires
            self.0 < u32::MAX,
            (self.0 + 1) % 4194304 != 0,
        ensures
            r@.start == Subject(((self.0 * 1024) % 0x1_0000_0000) as u32),
            r@.end == Subject((((self.0 + 1) * 1024) % 0x1_0000_0000 - 1) as u32),
            r@.exhausted == false,
    {
        let next_start = (self.0 + 1).wrapping_mul(SUBJECT_STRIDE);
        assert(next_start != 0) by (nonlinear_arith)
            requires
                next_start == ((self.0 + 1) * 1024) % 0x1_0000_0000,
                (self.0 + 1) % 4194304 != 0,
                self.0 < u32::MAX,
        ;
        let begin = Subject(self.0.wrapping_mul(SUBJECT_STRIDE));
        let end = Subject(next_start - 1);
        core::ops::RangeInclusive::new(begin, end)
    }
}

/// Every subject lies in the subject range of its own package, for the
/// packages whose range can be computed in 32 bits.
pub proof fn lemma_subject_in_own_package(subject: u32)
    requires
        subject / 1024 < 4194303,
    ensures
        ((subject / 1024) * 1024) % 0x1_0000_0000 <= subject,
        subject <= (((subject / 1024) + 1) * 1024) % 0x1_0000_0000 - 1,
{
    let p = subject / 1024;
    assert(p * 1024 <= subject < (p + 1) * 1024) by (nonlinear_arith)
        requires
            p == subject / 1024,
    ;
    assert((p + 1) * 1024 < 0x1_0000_0000) by (nonlinear_arith)
        requires
            p < 4194303,
    ;
}

/// The `log` target of a subject whose package (and possibly subject) is
/// known, or `None` for a subject of an unknown package.
pub open spec fn static_target_of(subject: u32) -> Option<Seq<char>> {
    let package = subject / 1024;
    if package == 0 {
        Some(
            if subject == 1 {
                "aws::common::task_scheduler"@
            } else if subject == 2 {
                "aws::common::thread"@
            } else if subject == 3 {
                "aws::common::memtrace"@
            } else if subject == 4 {
                "aws::common::xml_parser"@
            } else if subject == 5 {
                "aws::common::io"@
            } else if subject == 6 {
                "aws::common::bus"@
            } else if subject == 7 {
                "aws::common::test"@
            } else if subject == 8 {
                "aws::common::json_parser"@
            } else {
                "aws::common"@
            },
        )
    } else if package == 1 {
        Some(
            if subject == 1025 {
                "aws::io::event_loop"@
            } else if subject == 1026 {
                "aws::io::socket"@
            } else if subject == 1027 {
                "aws::io::socket_handler"@
            } else if subject == 1028 {
                "aws::io::tls"@
            } else if subject == 1029 {
                "aws::io::alpn"@
            } else if subject == 1030 {
                "aws::io::dns"@
            } else if subject == 1031 {
                "aws::io::pki"@
            } else if subject == 1032 {
                "aws::io::channel"@
            } else if subject == 1033 {
                "aws::io::channel_bootstrap"@
            } else if subject == 1034 {
                "aws::io::file_utils"@
            } else if subject == 1035 {
                "aws::io::shared_library"@
            } else if subject == 1036 {
                "aws::io::exponential_backoff_retry_strategy"@
            } else if subject == 1037 {
                "aws::io::standard_retry_strategy"@
            } else if subject == 1038 {
                "aws::io::pks11"@
            } else if subject == 1039 {
                "aws::io::pem"@
            } else {
                "aws::io"@
            },
        )
    } else if package == 2 {
        Some(
            if subject == 2049 {
                "aws::http::connection"@
            } else if subject == 2050 {
                "aws::http::encoder"@
            } else if subject == 2051 {
                "aws::http::decoder"@
            } else if subject == 2052 {
                "aws::http::server"@
            } else if subject == 2053 {
                "aws::http::stream"@
            } else if subject == 2054 {
                "aws::http::connection_manager"@
            } else if subject == 2055 {
                "aws::http::stream_manager"@
            } else if subject == 2056 {
                "aws::http::websocket"@
            } else if subject == 2057 {
                "aws::http::websocket_setup"@
            } else if subject == 2058 {
                "aws::http::proxy_negotiation"@
            } else {
                "aws::http"@
            },
        )
    } else if package == 3 {
        Some("aws::compression"@)
    } else if package == 4 {
        Some(
            if subject == 4097 {
                "aws::event_stream::channel_handler"@
            } else if subject == 4098 {
                "aws::event_stream::rpc_server"@
            } else if subject == 4099 {
                "aws::event_stream::rpc_client"@
            } else {
                "aws::event_stream"@
            },
        )
    } else if package == 5 {
        Some(
            if subject == 5121 {
                "aws::mqtt::client"@
            } else if subject == 5122 {
                "aws::mqtt::topic_tree"@
            } else if subject == 5123 {
                "aws::mqtt::v5::general"@
            } else if subject == 5124 {
                "aws::mqtt::v5::client"@
            } else if subject == 5125 {
                "aws::mqtt::v5::canary"@
            } else if subject == 5126 {
                "aws::mqtt::v5::mqtt3_adapter"@
            } else {
                "aws::mqtt"@
            },
        )
    } else if package == 6 {
        Some(
            if subject == 6145 {
                "aws::auth::profile"@
            } else if subject == 6146 {
                "aws::auth::credentials_provider"@
            } else if subject == 6147 {
                "aws::auth::signing"@
            } else if subject == 6148 {
                "aws::auth::imds"@
            } else {
                "aws::auth"@
            },
        )
    } else if package == 7 {
        Some(
            if subject == 7169 {
                "aws::cal::ecc"@
            } else if subject == 7170 {
                "aws::cal::hash"@
            } else if subject == 7171 {
                "aws::cal::hmac"@
            } else if subject == 7172 {
                "aws::cal::der"@
            } else if subject == 7173 {
                "aws::cal::libcrypto_resolve"@
            } else if subject == 7174 {
                "aws::cal::rsa"@
            } else {
                "aws::cal"@
            },
        )
    } else if package == 13 {
        Some(
            if subject == 13312 {
                "aws::iotdevice::defender_task"@
            } else if subject == 13313 {
                "aws::iotdevice::defender_task_config"@
            } else if subject == 13314 {
                "aws::iotdevice::network_config"@
            } else if subject == 13315 {
                "aws::iotdevice::secure_tunneling"@
            } else {
                "aws::iotdevice"@
            },
        )
    } else if package == 14 {
        Some(
            if subject == 14337 {
                "aws::s3::client"@
            } else if subject == 14338 {
                "aws::s3::client_stats"@
            } else if subject == 14339 {
                "aws::s3::requests"@
            } else if subject == 14340 {
                "aws::s3::meta_requests"@
            } else if subject == 14341 {
                "aws::s3::endpoint"@
            } else {
                "aws::s3"@
            },
        )
    } else if package == 15 {
        Some(
            if subject == 15361 {
                "aws::sdkutils::profile"@
            } else if subject == 15362 {
                "aws::sdkutils::endpoints_parsing"@
            } else if subject == 15363 {
                "aws::sdkutils::endpoints_resolve"@
            } else if subject == 15364 {
                "aws::sdkutils::endpoints_general"@
            } else if subject == 15365 {
                "aws::sdkutils::partitions_parsing"@
            } else {
                "aws::sdkutils"@
            },
        )
    } else {
        None
    }
}

/// The subjects the AWS C libraries give a name of their own.
pub open spec fn named_subject(s: u32) -> bool {
    ||| s == AWS_LS_COMMON_TASK_SCHEDULER
    ||| s == AWS_LS_COMMON_THREAD
    ||| s == AWS_LS_COMMON_MEMTRACE
    ||| s == AWS_LS_COMMON_XML_PARSER
    ||| s == AWS_LS_COMMON_IO
    ||| s == AWS_LS_COMMON_BUS
    ||| s == AWS_LS_COMMON_TEST
    ||| s == AWS_LS_COMMON_JSON_PARSER
    ||| s == AWS_LS_IO_EVENT_LOOP
    ||| s == AWS_LS_IO_SOCKET
    ||| s == AWS_LS_IO_SOCKET_HANDLER
    ||| s == AWS_LS_IO_TLS
    ||| s == AWS_LS_IO_ALPN
    ||| s == AWS_LS_IO_DNS
    ||| s == AWS_LS_IO_PKI
    ||| s == AWS_LS_IO_CHANNEL
    ||| s == AWS_LS_IO_CHANNEL_BOOTSTRAP
    ||| s == AWS_LS_IO_FILE_UTILS
    ||| s == AWS_LS_IO_SHARED_LIBRARY
    ||| s == AWS_LS_IO_EXPONENTIAL_BACKOFF_RETRY_STRATEGY
    ||| s == AWS_LS_IO_STANDARD_RETRY_STRATEGY
    ||| s == AWS_LS_IO_PKCS11
    ||| s == AWS_LS_IO_PEM
    ||| s == AWS_LS_HTTP_CONNECTION
    ||| s == AWS_LS_HTTP_ENCODER
    ||| s == AWS_LS_HTTP_DECODER
    ||| s == AWS_LS_HTTP_SERVER
    ||| s == AWS_LS_HTTP_STREAM
    ||| s == AWS_LS_HTTP_CONNECTION_MANAGER
    ||| s == AWS_LS_HTTP_STREAM_MANAGER
    ||| s == AWS_LS_HTTP_WEBSOCKET
    ||| s == AWS_LS_HTTP_WEBSOCKET_SETUP
    ||| s == AWS_LS_HTTP_PROXY_NEGOTIATION
    ||| s == AWS_LS_EVENT_STREAM_CHANNEL_HANDLER
    ||| s == AWS_LS_EVENT_STREAM_RPC_SERVER
    ||| s == AWS_LS_EVENT_STREAM_RPC_CLIENT
    ||| s == AWS_LS_MQTT_CLIENT
    ||| s == AWS_LS_MQTT_TOPIC_TREE
    ||| s == AWS_LS_MQTT5_GENERAL
    ||| s == AWS_LS_MQTT5_CLIENT
    ||| s == AWS_LS_MQTT5_CANARY
    ||| s == AWS_LS_MQTT5_TO_MQTT3_ADAPTER
    ||| s == AWS_LS_AUTH_PROFILE
    ||| s == AWS_LS_AUTH_CREDENTIALS_PROVIDER
    ||| s == AWS_LS_AUTH_SIGNING
    ||| s == AWS_LS_IMDS_CLIENT
    ||| s == AWS_LS_CAL_ECC
    ||| s == AWS_LS_CAL_HASH
    ||| s == AWS_LS_CAL_HMAC
    ||| s == AWS_LS_CAL_DER
    ||| s == AWS_LS_CAL_LIBCRYPTO_RESOLVE
    ||| s == AWS_LS_CAL_RSA
    ||| s == AWS_LS_IOTDEVICE_DEFENDER_TASK
    ||| s == AWS_LS_IOTDEVICE_DEFENDER_TASK_CONFIG
    ||| s == AWS_LS_IOTDEVICE_NETWORK_CONFIG
    ||| s == AWS_LS_IOTDEVICE_SECURE_TUNNELING
    ||| s == AWS_LS_S3_CLIENT
    ||| s == AWS_LS_S3_CLIENT_STATS
    ||| s == AWS_LS_S3_REQUEST
    ||| s == AWS_LS_S3_META_REQUEST
    ||| s == AWS_LS_S3_ENDPOINT
    ||| s == AWS_LS_SDKUTILS_PROFILE
    ||| s == AWS_LS_SDKUTILS_ENDPOINTS_PARSING
    ||| s == AWS_LS_SDKUTILS_ENDPOINTS_RESOLVE
    ||| s == AWS_LS_SDKUTILS_ENDPOINTS_GENERAL
    ||| s == AWS_LS_SDKUTILS_PARTITIONS_PARSING
}

/// The target of a subject extends the target of its package (that of a
/// subject of the package without a name of its own) by `::` and more.
pub open spec fn target_extends_package(s: u32) -> bool {
    let f = static_target_of(((s / 1024) * 1024 + 1023) as u32);
    let t = static_target_of(s);
    &&& f is Some
    &&& t is Some
    &&& t->0.len() > f->0.len() + 2
    &&& t->0.subrange(0, f->0.len() as int) == f->0
    &&& t->0[f->0.len() as int] == ':'
    &&& t->0[f->0.len() + 1int] == ':'
}

proof fn lemma_package_0_targets(s1: u32, s2: u32)
    requires
        s1 == AWS_LS_COMMON_TASK_SCHEDULER || s1 == AWS_LS_COMMON_THREAD || s1 == AWS_LS_COMMON_MEMTRACE || s1 == AWS_LS_COMMON_XML_PARSER || s1 == AWS_LS_COMMON_IO || s1 == AWS_LS_COMMON_BUS || s1 == AWS_LS_COMMON_TEST || s1 == AWS_LS_COMMON_JSON_PARSER,
        s2 == AWS_LS_COMMON_TASK_SCHEDULER || s2 == AWS_LS_COMMON_THREAD || s2 == AWS_LS_COMMON_MEMTRACE || s2 == AWS_LS_COMMON_XML_PARSER || s2 == AWS_LS_COMMON_IO || s2 == AWS_LS_COMMON_BUS || s2 == AWS_LS_COMMON_TEST || s2 == AWS_LS_COMMON_JSON_PARSER,
    ensures
        target_extends_package(s1),
        s1 != s2 ==> static_target_of(s1) != static_target_of(s2),
{
    reveal_strlit("aws::common");
    reveal_strlit("aws::common::task_scheduler");
    reveal_strlit("aws::common::thread");
    reveal_strlit("aws::common::memtrace");
    reveal_strlit("aws::common::xml_parser");
    reveal_strlit("aws::common::io");
    reveal_strlit("aws::common::bus");
    reveal_strlit("aws::common::test");
    reveal_strlit("aws::common::json_parser");
    let f = "aws::common"@;
    assert(static_target_of(1023) == Some(f));
    if s1 == AWS_LS_COMMON_TASK_SCHEDULER {
        assert("aws::common::task_scheduler"@.subrange(0, f.len() as int) =~= f);
    }
    if s1 == AWS_LS_COMMON_THREAD {
        assert("aws::common::thread"@.subrange(0, f.len() as int) =~= f);
    }
    if s1 == AWS_LS_COMMON_MEMTRACE {
        assert("aws::common::memtrace"@.subrange(0, f.len() as int) =~= f);
    }
    if s1 == AWS_LS_COMMON_XML_PARSER {
        assert("aws::common::xml_parser"@.subrange(0, f.len() as int) =~= f);
    }
    if s1 == AWS_LS_COMMON_IO {
        assert("aws::common::io"@.subrange(0, f.len() as int) =~= f);
    }
    if s1 == AWS_LS_COMMON_BUS {
        assert("aws::common::bus"@.subrange(0, f.len() as int) =~= f);
    }
    if s1 == AWS_LS_COMMON_TEST {
        assert("aws::common::test"@.subrange(0, f.len() as int) =~= f);
    }
    if s1 == AWS_LS_COMMON_JSON_PARSER {
        assert("aws::common::json_parser"@.subrange(0, f.len() as int) =~= f);
    }
}

proof fn lemma_package_1_targets(s1: u32, s2: u32)
    requires
        s1 == AWS_LS_IO_EVENT_LOOP || s1 == AWS_LS_IO_SOCKET || s1 == AWS_LS_IO_SOCKET_HANDLER || s1 == AWS_LS_IO_TLS || s1 == AWS_LS_IO_ALPN || s1 == AWS_LS_IO_DNS || s1 == AWS_LS_IO_PKI || s1 == AWS_LS_IO_CHANNEL || s1 == AWS_LS_IO_CHANNEL_BOOTSTRAP || s1 == AWS_LS_IO_FILE_UTILS || s1 == AWS_LS_IO_SHARED_LIBRARY || s1 == AWS_LS_IO_EXPONENTIAL_BACKOFF_RETRY_STRATEGY || s1 == AWS_LS_IO_STANDARD_RETRY_STRATEGY || s1 == AWS_LS_IO_PKCS11 || s1 == AWS_LS_IO_PEM,
        s2 == AWS_LS_IO_EVENT_LOOP || s2 == AWS_LS_IO_SOCKET || s2 == AWS_LS_IO_SOCKET_HANDLER || s2 == AWS_LS_IO_TLS || s2 == AWS_LS_IO_ALPN || s2 == AWS_LS_IO_DNS || s2 == AWS_LS_IO_PKI || s2 == AWS_LS_IO_CHANNEL || s2 == AWS_LS_IO_CHANNEL_BOOTSTRAP || s2 == AWS_LS_IO_FILE_UTILS || s2 == AWS_LS_IO_SHARED_LIBRARY || s2 == AWS_LS_IO_EXPONENTIAL_BACKOFF_RETRY_STRATEGY || s2 == AWS_LS_IO_STANDARD_RETRY_STRATEGY || s2 == AWS_LS_IO_PKCS11 || s2 == AWS_LS_IO_PEM,
    ensures
        target_extends_package(s1),
        s1 != s2 ==> static_target_of(s1) != static_target_of(s2),
{
    reveal_strlit("aws::io");
    reveal_strlit("aws::io::event_loop");
    reveal_strlit("aws::io::socket");
    reveal_strlit("aws::io::socket_handler");
    reveal_strlit("aws::io::tls");
    reveal_strlit("aws::io::alpn");
    reveal_strlit("aws::io::dns");
    reveal_strlit("aws::io::pki");
    reveal_strlit("aws::io::channel");
    reveal_strlit("aws::io::channel_bootstrap");
    reveal_strlit("aws::io::file_utils");
    reveal_strlit("aws::io::shared_library");
    reveal_strlit("aws::io::exponential_backoff_retry_strategy");
    reveal_strlit("aws::io::standard_retry_strategy");
    reveal_strlit("aws::io::pks11");
    reveal_strlit("aws::io::pem");
    let f = "aws::io"@;
    assert(static_target_of(2047) == Some(f));
    if s1 == AWS_LS_IO_EVENT_LOOP {
        assert("aws::io::event_loop"@.subrange(0, f.len() as int) =~= f);
    }
    if s1 == AWS_LS_IO_SOCKET {
        assert("aws::io::socket"@.subrange(0, f.len() as int) =~= f);
    }
    if s1 == AWS_LS_IO_SOCKET_HANDLER {
        assert("aws::io::socket_handler"@.subrange(0, f.len() as int) =~= f);
    }
    if s1 == AWS_LS_IO_TLS {
        assert("aws::io::tls"@.subrange(0, f.len() as int) =~= f);
    }
    if s1 == AWS_LS_IO_ALPN {
        assert("aws::io::alpn"@.subrange(0, f.len() as int) =~= f);
    }
    if s1 == AWS_LS_IO_DNS {
        assert("aws::io::dns"@.subrange(0, f.len() as int) =~= f);
    }
    if s1 == AWS_LS_IO_PKI {
        assert("aws::io::pki"@.subrange(0, f.len() as int) =~= f);
    }
    if s1 == AWS_LS_IO_CHANNEL {
        assert("aws::io::channel"@.subrange(0, f.len() as int) =~= f);
    }
    if s1 == AWS_LS_IO_CHANNEL_BOOTSTRAP {
        assert("aws::io::channel_bootstrap"@.subrange(0, f.len() as int) =~= f);
    }
    if s1 == AWS_LS_IO_FILE_UTILS {
        assert("aws::io::file_utils"@.subrange(0, f.len() as int) =~= f);
    }
    if s1 == AWS_LS_IO_SHARED_LIBRARY {
        assert("aws::io::shared_library"@.subrange(0, f.len() as int) =~= f);
    }
    if s1 == AWS_LS_IO_EXPONENTIAL_BACKOFF_RETRY_STRATEGY {
        assert("aws::io::exponential_backoff_retry_strategy"@.subrange(0, f.len() as int) =~= f);
    }
    if s1 == AWS_LS_IO_STANDARD_RETRY_STRATEGY {
        assert("aws::io::standard_retry_strategy"@.subrange(0, f.len() as int) =~= f);
    }
    if s1 == AWS_LS_IO_PKCS11 {
        assert("aws::io::pks11"@.subrange(0, f.len() as int) =~= f);
    }
    if s1 == AWS_LS_IO_PEM {
        assert("aws::io::pem"@.subrange(0, f.len() as int) =~= f);
    }
    assert("aws::io::event_loop"@[9] != "aws::io::file_utils"@[9]);
    assert("aws::io::socket_handler"@[10] != "aws::io::shared_library"@[10]);
    assert("aws::io::tls"@[9] != "aws::io::dns"@[9]);
    assert("aws::io::tls"@[9] != "aws::io::pki"@[9]);
    assert("aws::io::tls"@[9] != "aws::io::pem"@[9]);
    assert("aws::io::dns"@[9] != "aws::io::pki"@[9]);
    assert("aws::io::dns"@[9] != "aws::io::pem"@[9]);
    assert("aws::io::pki"@[10] != "aws::io::pem"@[10]);
}

proof fn lemma_package_2_targets(s1: u32, s2: u32)
    requires
        s1 == AWS_LS_HTTP_CONNECTION || s1 == AWS_LS_HTTP_ENCODER || s1 == AWS_LS_HTTP_DECODER || s1 == AWS_LS_HTTP_SERVER || s1 == AWS_LS_HTTP_STREAM || s1 == AWS_LS_HTTP_CONNECTION_MANAGER || s1 == AWS_LS_HTTP_STREAM_MANAGER || s1 == AWS_LS_HTTP_WEBSOCKET || s1 == AWS_LS_HTTP_WEBSOCKET_SETUP || s1 == AWS_LS_HTTP_PROXY_NEGOTIATION,
        s2 == AWS_LS_HTTP_CONNECTION || s2 == AWS_LS_HTTP_ENCODER || s2 == AWS_LS_HTTP_DECODER || s2 == AWS_LS_HTTP_SERVER || s2 == AWS_LS_HTTP_STREAM || s2 == AWS_LS_HTTP_CONNECTION_MANAGER || s2 == AWS_LS_HTTP_STREAM_MANAGER || s2 == AWS_LS_HTTP_WEBSOCKET || s2 == AWS_LS_HTTP_WEBSOCKET_SETUP || s2 == AWS_LS_HTTP_PROXY_NEGOTIATION,
    ensures
        target_extends_package(s1),
        s1 != s2 ==> static_target_of(s1) != static_target_of(s2),
{
    reveal_strlit("aws::http");
    reveal_strlit("aws::http::connection");
    reveal_strlit("aws::http::encoder");
    reveal_strlit("aws::http::decoder");
    reveal_strlit("aws::http::server");
    reveal_strlit("aws::http::stream");
    reveal_strlit("aws::http::connection_manager");
    reveal_strlit("aws::http::stream_manager");
    reveal_strlit("aws::http::websocket");
    reveal_strlit("aws::http::websocket_setup");
    reveal_strlit("aws::http::proxy_negotiation");
    let f = "aws::http"@;
    assert(static_target_of(3071) == Some(f));
    if s1 == AWS_LS_HTTP_CONNECTION {
        assert("aws::http::connection"@.subrange(0, f.len() as int) =~= f);
    }
    if s1 == AWS_LS_HTTP_ENCODER {
        assert("aws::http::encoder"@.subrange(0, f.len() as int) =~= f);
    }
    if s1 == AWS_LS_HTTP_DECODER {
        assert("aws::http::decoder"@.subrange(0, f.len() as int) =~= f);
    }
    if s1 == AWS_LS_HTTP_SERVER {
        assert("aws::http::server"@.subrange(0, f.len() as int) =~= f);
    }
    if s1 == AWS_LS_HTTP_STREAM {
        assert("aws::http::stream"@.subrange(0, f.len() as int) =~= f);
    }
    if s1 == AWS_LS_HTTP_CONNECTION_MANAGER {
        assert("aws::http::connection_manager"@.subrange(0, f.len() as int) =~= f);
    }
    if s1 == AWS_LS_HTTP_STREAM_MANAGER {
        assert("aws::http::stream_manager"@.subrange(0, f.len() as int) =~= f);
    }
    if s1 == AWS_LS_HTTP_WEBSOCKET {
        assert("aws::http::websocket"@.subrange(0, f.len() as int) =~= f);
    }
    if s1 == AWS_LS_HTTP_WEBSOCKET_SETUP {
        assert("aws::http::websocket_setup"@.subrange(0, f.len() as int) =~= f);
    }
    if s1 == AWS_LS_HTTP_PROXY_NEGOTIATION {
        assert("aws::http::proxy_negotiation"@.subrange(0, f.len() as int) =~= f);
    }
    assert("aws::http::encoder"@[11] != "aws::http::decoder"@[11]);
    assert("aws::http::server"@[12] != "aws::http::stream"@[12]);
}

proof fn lemma_package_4_targets(s1: u32, s2: u32)
    requires
        s1 == AWS_LS_EVENT_STREAM_CHANNEL_HANDLER || s1 == AWS_LS_EVENT_STREAM_RPC_SERVER || s1 == AWS_LS_EVENT_STREAM_RPC_CLIENT,
        s2 == AWS_LS_EVENT_STREAM_CHANNEL_HANDLER || s2 == AWS_LS_EVENT_STREAM_RPC_SERVER || s2 == AWS_LS_EVENT_STREAM_RPC_CLIENT,
    ensures
        target_extends_package(s1),
        s1 != s2 ==> static_target_of(s1) != static_target_of(s2),
{
    reveal_strlit("aws::event_stream");
    reveal_strlit("aws::event_stream::channel_handler");
    reveal_strlit("aws::event_stream::rpc_server");
    reveal_strlit("aws::event_stream::rpc_client");
    let f = "aws::event_stream"@;
    assert(static_target_of(5119) == Some(f));
    if s1 == AWS_LS_EVENT_STREAM_CHANNEL_HANDLER {
        assert("aws::event_stream::channel_handler"@.subrange(0, f.len() as int) =~= f);
    }
    if s1 == AWS_LS_EVENT_STREAM_RPC_SERVER {
        assert("aws::event_stream::rpc_server"@.subrange(0, f.len() as int) =~= f);
    }
    if s1 == AWS_LS_EVENT_STREAM_RPC_CLIENT {
        assert("aws::event_stream::rpc_client"@.subrange(0, f.len() as int) =~= f);
    }
    assert("aws::event_stream::rpc_server"@[23] != "aws::event_stream::rpc_client"@[23]);
}

proof fn lemma_package_5_targets(s1: u32, s2: u32)
    requires
        s1 == AWS_LS_MQTT_CLIENT || s1 == AWS_LS_MQTT_TOPIC_TREE || s1 == AWS_LS_MQTT5_GENERAL || s1 == AWS_LS_MQTT5_CLIENT || s1 == AWS_LS_MQTT5_CANARY || s1 == AWS_LS_MQTT5_TO_MQTT3_ADAPTER,
        s2 == AWS_LS_MQTT_CLIENT || s2 == AWS_LS_MQTT_TOPIC_TREE || s2 == AWS_LS_MQTT5_GENERAL || s2 == AWS_LS_MQTT5_CLIENT || s2 == AWS_LS_MQTT5_CANARY || s2 == AWS_LS_MQTT5_TO_MQTT3_ADAPTER,
    ensures
        target_extends_package(s1),
        s1 != s2 ==> static_target_of(s1) != static_target_of(s2),
{
    reveal_strlit("aws::mqtt");
    reveal_strlit("aws::mqtt::client");
    reveal_strlit("aws::mqtt::topic_tree");
    reveal_strlit("aws::mqtt::v5::general");
    reveal_strlit("aws::mqtt::v5::client");
    reveal_strlit("aws::mqtt::v5::canary");
    reveal_strlit("aws::mqtt::v5::mqtt3_adapter");
    let f = "aws::mqtt"@;
    assert(static_target_of(6143) == Some(f));
    if s1 == AWS_LS_MQTT_CLIENT {
        assert("aws::mqtt::client"@.subrange(0, f.len() as int) =~= f);
    }
    if s1 == AWS_LS_MQTT_TOPIC_TREE {
        assert("aws::mqtt::topic_tree"@.subrange(0, f.len() as int) =~= f);
    }
    if s1 == AWS_LS_MQTT5_GENERAL {
        assert("aws::mqtt::v5::general"@.subrange(0, f.len() as int) =~= f);
    }
    if s1 == AWS_LS_MQTT5_CLIENT {
        assert("aws::mqtt::v5::client"@.subrange(0, f.len() as int) =~= f);
    }
    if s1 == AWS_LS_MQTT5_CANARY {
        assert("aws::mqtt::v5::canary"@.subrange(0, f.len() as int) =~= f);
    }
    if s1 == AWS_LS_MQTT5_TO_MQTT3_ADAPTER {
        assert("aws::mqtt::v5::mqtt3_adapter"@.subrange(0, f.len() as int) =~= f);
    }
    assert("aws::mqtt::topic_tree"@[11] != "aws::mqtt::v5::client"@[11]);
    assert("aws::mqtt::topic_tree"@[11] != "aws::mqtt::v5::canary"@[11]);
    assert("aws::mqtt::v5::client"@[16] != "aws::mqtt::v5::canary"@[16]);
}

proof fn lemma_package_6_targets(s1: u32, s2: u32)
    requires
        s1 == AWS_LS_AUTH_PROFILE || s1 == AWS_LS_AUTH_CREDENTIALS_PROVIDER || s1 == AWS_LS_AUTH_SIGNING || s1 == AWS_LS_IMDS_CLIENT,
        s2 == AWS_LS_AUTH_PROFILE || s2 == AWS_LS_AUTH_CREDENTIALS_PROVIDER || s2 == AWS_LS_AUTH_SIGNING || s2 == AWS_LS_IMDS_CLIENT,
    ensures
        target_extends_package(s1),
        s1 != s2 ==> static_target_of(s1) != static_target_of(s2),
{
    reveal_strlit("aws::auth");
    reveal_strlit("aws::auth::profile");
    reveal_strlit("aws::auth::credentials_provider");
    reveal_strlit("aws::auth::signing");
    reveal_strlit("aws::auth::imds");
    let f = "aws::auth"@;
    assert(static_target_of(7167) == Some(f));
    if s1 == AWS_LS_AUTH_PROFILE {
        assert("aws::auth::profile"@.subrange(0, f.len() as int) =~= f);
    }
    if s1 == AWS_LS_AUTH_CREDENTIALS_PROVIDER {
        assert("aws::auth::credentials_provider"@.subrange(0, f.len() as int) =~= f);
    }
    if s1 == AWS_LS_AUTH_SIGNING {
        assert("aws::auth::signing"@.subrange(0, f.len() as int) =~= f);
    }
    if s1 == AWS_LS_IMDS_CLIENT {
        assert("aws::auth::imds"@.subrange(0, f.len() as int) =~= f);
    }
    assert("aws::auth::profile"@[11] != "aws::auth::signing"@[11]);
}

proof fn lemma_package_7_targets(s1: u32, s2: u32)
    requires
        s1 == AWS_LS_CAL_ECC || s1 == AWS_LS_CAL_HASH || s1 == AWS_LS_CAL_HMAC || s1 == AWS_LS_CAL_DER || s1 == AWS_LS_CAL_LIBCRYPTO_RESOLVE || s1 == AWS_LS_CAL_RSA,
        s2 == AWS_LS_CAL_ECC || s2 == AWS_LS_CAL_HASH || s2 == AWS_LS_CAL_HMAC || s2 == AWS_LS_CAL_DER || s2 == AWS_LS_CAL_LIBCRYPTO_RESOLVE || s2 == AWS_LS_CAL_RSA,
    ensures
        target_extends_package(s1),
        s1 != s2 ==> static_target_of(s1) != static_target_of(s2),
{
    reveal_strlit("aws::cal");
    reveal_strlit("aws::cal::ecc");
    reveal_strlit("aws::cal::hash");
    reveal_strlit("aws::cal::hmac");
    reveal_strlit("aws::cal::der");
    reveal_strlit("aws::cal::libcrypto_resolve");
    reveal_strlit("aws::cal::rsa");
    let f = "aws::cal"@;
    assert(static_target_of(8191) == Some(f));
    if s1 == AWS_LS_CAL_ECC {
        assert("aws::cal::ecc"@.subrange(0, f.len() as int) =~= f);
    }
    if s1 == AWS_LS_CAL_HASH {
        assert("aws::cal::hash"@.subrange(0, f.len() as int) =~= f);
    }
    if s1 == AWS_LS_CAL_HMAC {
        assert("aws::cal::hmac"@.subrange(0, f.len() as int) =~= f);
    }
    if s1 == AWS_LS_CAL_DER {
        assert("aws::cal::der"@.subrange(0, f.len() as int) =~= f);
    }
    if s1 == AWS_LS_CAL_LIBCRYPTO_RESOLVE {
        assert("aws::cal::libcrypto_resolve"@.subrange(0, f.len() as int) =~= f);
    }
    if s1 == AWS_LS_CAL_RSA {
        assert("aws::cal::rsa"@.subrange(0, f.len() as int) =~= f);
    }
    assert("aws::cal::ecc"@[10] != "aws::cal::der"@[10]);
    assert("aws::cal::ecc"@[10] != "aws::cal::rsa"@[10]);
    assert("aws::cal::hash"@[11] != "aws::cal::hmac"@[11]);
    assert("aws::cal::der"@[10] != "aws::cal::rsa"@[10]);
}

proof fn lemma_package_13_targets(s1: u32, s2: u32)
    requires
        s1 == AWS_LS_IOTDEVICE_DEFENDER_TASK || s1 == AWS_LS_IOTDEVICE_DEFENDER_TASK_CONFIG || s1 == AWS_LS_IOTDEVICE_NETWORK_CONFIG || s1 == AWS_LS_IOTDEVICE_SECURE_TUNNELING,
        s2 == AWS_LS_IOTDEVICE_DEFENDER_TASK || s2 == AWS_LS_IOTDEVICE_DEFENDER_TASK_CONFIG || s2 == AWS_LS_IOTDEVICE_NETWORK_CONFIG || s2 == AWS_LS_IOTDEVICE_SECURE_TUNNELING,
    ensures
        target_extends_package(s1),
        s1 != s2 ==> static_target_of(s1) != static_target_of(s2),
{
    reveal_strlit("aws::iotdevice");
    reveal_strlit("aws::iotdevice::defender_task");
    reveal_strlit("aws::iotdevice::defender_task_config");
    reveal_strlit("aws::iotdevice::network_config");
    reveal_strlit("aws::iotdevice::secure_tunneling");
    let f = "aws::iotdevice"@;
    assert(static_target_of(14335) == Some(f));
    if s1 == AWS_LS_IOTDEVICE_DEFENDER_TASK {
        assert("aws::iotdevice::defender_task"@.subrange(0, f.len() as int) =~= f);
    }
    if s1 == AWS_LS_IOTDEVICE_DEFENDER_TASK_CONFIG {
        assert("aws::iotdevice::defender_task_config"@.subrange(0, f.len() as int) =~= f);
    }
    if s1 == AWS_LS_IOTDEVICE_NETWORK_CONFIG {
        assert("aws::iotdevice::network_config"@.subrange(0, f.len() as int) =~= f);
    }
    if s1 == AWS_LS_IOTDEVICE_SECURE_TUNNELING {
        assert("aws::iotdevice::secure_tunneling"@.subrange(0, f.len() as int) =~= f);
    }
}

proof fn lemma_package_14_targets(s1: u32, s2: u32)
    requires
        s1 == AWS_LS_S3_CLIENT || s1 == AWS_LS_S3_CLIENT_STATS || s1 == AWS_LS_S3_REQUEST || s1 == AWS_LS_S3_META_REQUEST || s1 == AWS_LS_S3_ENDPOINT,
        s2 == AWS_LS_S3_CLIENT || s2 == AWS_LS_S3_CLIENT_STATS || s2 == AWS_LS_S3_REQUEST || s2 == AWS_LS_S3_META_REQUEST || s2 == AWS_LS_S3_ENDPOINT,
    ensures
        target_extends_package(s1),
        s1 != s2 ==> static_target_of(s1) != static_target_of(s2),
{
    reveal_strlit("aws::s3");
    reveal_strlit("aws::s3::client");
    reveal_strlit("aws::s3::client_stats");
    reveal_strlit("aws::s3::requests");
    reveal_strlit("aws::s3::meta_requests");
    reveal_strlit("aws::s3::endpoint");
    let f = "aws::s3"@;
    assert(static_target_of(15359) == Some(f));
    if s1 == AWS_LS_S3_CLIENT {
        assert("aws::s3::client"@.subrange(0, f.len() as int) =~= f);
    }
    if s1 == AWS_LS_S3_CLIENT_STATS {
        assert("aws::s3::client_stats"@.subrange(0, f.len() as int) =~= f);
    }
    if s1 == AWS_LS_S3_REQUEST {
        assert("aws::s3::requests"@.subrange(0, f.len() as int) =~= f);
    }
    if s1 == AWS_LS_S3_META_REQUEST {
        assert("aws::s3::meta_requests"@.subrange(0, f.len() as int) =~= f);
    }
    if s1 == AWS_LS_S3_ENDPOINT {
        assert("aws::s3::endpoint"@.subrange(0, f.len() as int) =~= f);
    }
    assert("aws::s3::requests"@[9] != "aws::s3::endpoint"@[9]);
}

proof fn lemma_package_15_targets(s1: u32, s2: u32)
    requires
        s1 == AWS_LS_SDKUTILS_PROFILE || s1 == AWS_LS_SDKUTILS_ENDPOINTS_PARSING || s1 == AWS_LS_SDKUTILS_ENDPOINTS_RESOLVE || s1 == AWS_LS_SDKUTILS_ENDPOINTS_GENERAL || s1 == AWS_LS_SDKUTILS_PARTITIONS_PARSING,
        s2 == AWS_LS_SDKUTILS_PROFILE || s2 == AWS_LS_SDKUTILS_ENDPOINTS_PARSING || s2 == AWS_LS_SDKUTILS_ENDPOINTS_RESOLVE || s2 == AWS_LS_SDKUTILS_ENDPOINTS_GENERAL || s2 == AWS_LS_SDKUTILS_PARTITIONS_PARSING,
    ensures
        target_extends_package(s1),
        s1 != s2 ==> static_target_of(s1) != static_target_of(s2),
{
    reveal_strlit("aws::sdkutils");
    reveal_strlit("aws::sdkutils::profile");
    reveal_strlit("aws::sdkutils::endpoints_parsing");
    reveal_strlit("aws::sdkutils::endpoints_resolve");
    reveal_strlit("aws::sdkutils::endpoints_general");
    reveal_strlit("aws::sdkutils::partitions_parsing");
    let f = "aws::sdkutils"@;
    assert(static_target_of(16383) == Some(f));
    if s1 == AWS_LS_SDKUTILS_PROFILE {
        assert("aws::sdkutils::profile"@.subrange(0, f.len() as int) =~= f);
    }
    if s1 == AWS_LS_SDKUTILS_ENDPOINTS_PARSING {
        assert("aws::sdkutils::endpoints_parsing"@.subrange(0, f.len() as int) =~= f);
    }
    if s1 == AWS_LS_SDKUTILS_ENDPOINTS_RESOLVE {
        assert("aws::sdkutils::endpoints_resolve"@.subrange(0, f.len() as int) =~= f);
    }
    if s1 == AWS_LS_SDKUTILS_ENDPOINTS_GENERAL {
        assert("aws::sdkutils::endpoints_general"@.subrange(0, f.len() as int) =~= f);
    }
    if s1 == AWS_LS_SDKUTILS_PARTITIONS_PARSING {
        assert("aws::sdkutils::partitions_parsing"@.subrange(0, f.len() as int) =~= f);
    }
    assert("aws::sdkutils::endpoints_parsing"@[25] != "aws::sdkutils::endpoints_resolve"@[25]);
    assert("aws::sdkutils::endpoints_parsing"@[25] != "aws::sdkutils::endpoints_general"@[25]);
    assert("aws::sdkutils::endpoints_resolve"@[25] != "aws::sdkutils::endpoints_general"@[25]);
}

/// Every subject with a name of its own gets a target of its own: the
/// target of its package followed by `::` and more (so never the package's
/// target, which unnamed subjects get), and no two named subjects of a
/// package share a target.
pub proof fn lemma_named_subject_targets(s1: u32, s2: u32)
    ensures
        named_subject(s1) ==> target_extends_package(s1),
        named_subject(s1) && named_subject(s2) && s1 / 1024 == s2 / 1024 && s1 != s2 ==> static_target_of(s1)
            != static_target_of(s2),
{
    if s1 == AWS_LS_COMMON_TASK_SCHEDULER || s1 == AWS_LS_COMMON_THREAD || s1 == AWS_LS_COMMON_MEMTRACE || s1 == AWS_LS_COMMON_XML_PARSER || s1 == AWS_LS_COMMON_IO || s1 == AWS_LS_COMMON_BUS || s1 == AWS_LS_COMMON_TEST || s1 == AWS_LS_COMMON_JSON_PARSER {
        let t = if s2 == AWS_LS_COMMON_TASK_SCHEDULER || s2 == AWS_LS_COMMON_THREAD || s2 == AWS_LS_COMMON_MEMTRACE || s2 == AWS_LS_COMMON_XML_PARSER || s2 == AWS_LS_COMMON_IO || s2 == AWS_LS_COMMON_BUS || s2 == AWS_LS_COMMON_TEST || s2 == AWS_LS_COMMON_JSON_PARSER { s2 } else { s1 };
        lemma_package_0_targets(s1, t);
    } else if s1 == AWS_LS_IO_EVENT_LOOP || s1 == AWS_LS_IO_SOCKET || s1 == AWS_LS_IO_SOCKET_HANDLER || s1 == AWS_LS_IO_TLS || s1 == AWS_LS_IO_ALPN || s1 == AWS_LS_IO_DNS || s1 == AWS_LS_IO_PKI || s1 == AWS_LS_IO_CHANNEL || s1 == AWS_LS_IO_CHANNEL_BOOTSTRAP || s1 == AWS_LS_IO_FILE_UTILS || s1 == AWS_LS_IO_SHARED_LIBRARY || s1 == AWS_LS_IO_EXPONENTIAL_BACKOFF_RETRY_STRATEGY || s1 == AWS_LS_IO_STANDARD_RETRY_STRATEGY || s1 == AWS_LS_IO_PKCS11 || s1 == AWS_LS_IO_PEM {
        let t = if s2 == AWS_LS_IO_EVENT_LOOP || s2 == AWS_LS_IO_SOCKET || s2 == AWS_LS_IO_SOCKET_HANDLER || s2 == AWS_LS_IO_TLS || s2 == AWS_LS_IO_ALPN || s2 == AWS_LS_IO_DNS || s2 == AWS_LS_IO_PKI || s2 == AWS_LS_IO_CHANNEL || s2 == AWS_LS_IO_CHANNEL_BOOTSTRAP || s2 == AWS_LS_IO_FILE_UTILS || s2 == AWS_LS_IO_SHARED_LIBRARY || s2 == AWS_LS_IO_EXPONENTIAL_BACKOFF_RETRY_STRATEGY || s2 == AWS_LS_IO_STANDARD_RETRY_STRATEGY || s2 == AWS_LS_IO_PKCS11 || s2 == AWS_LS_IO_PEM { s2 } else { s1 };
        lemma_package_1_targets(s1, t);
    } else if s1 == AWS_LS_HTTP_CONNECTION || s1 == AWS_LS_HTTP_ENCODER || s1 == AWS_LS_HTTP_DECODER || s1 == AWS_LS_HTTP_SERVER || s1 == AWS_LS_HTTP_STREAM || s1 == AWS_LS_HTTP_CONNECTION_MANAGER || s1 == AWS_LS_HTTP_STREAM_MANAGER || s1 == AWS_LS_HTTP_WEBSOCKET || s1 == AWS_LS_HTTP_WEBSOCKET_SETUP || s1 == AWS_LS_HTTP_PROXY_NEGOTIATION {
        let t = if s2 == AWS_LS_HTTP_CONNECTION || s2 == AWS_LS_HTTP_ENCODER || s2 == AWS_LS_HTTP_DECODER || s2 == AWS_LS_HTTP_SERVER || s2 == AWS_LS_HTTP_STREAM || s2 == AWS_LS_HTTP_CONNECTION_MANAGER || s2 == AWS_LS_HTTP_STREAM_MANAGER || s2 == AWS_LS_HTTP_WEBSOCKET || s2 == AWS_LS_HTTP_WEBSOCKET_SETUP || s2 == AWS_LS_HTTP_PROXY_NEGOTIATION { s2 } else { s1 };
        lemma_package_2_targets(s1, t);
    } else if s1 == AWS_LS_EVENT_STREAM_CHANNEL_HANDLER || s1 == AWS_LS_EVENT_STREAM_RPC_SERVER || s1 == AWS_LS_EVENT_STREAM_RPC_CLIENT {
        let t = if s2 == AWS_LS_EVENT_STREAM_CHANNEL_HANDLER || s2 == AWS_LS_EVENT_STREAM_RPC_SERVER || s2 == AWS_LS_EVENT_STREAM_RPC_CLIENT { s2 } else { s1 };
        lemma_package_4_targets(s1, t);
    } else if s1 == AWS_LS_MQTT_CLIENT || s1 == AWS_LS_MQTT_TOPIC_TREE || s1 == AWS_LS_MQTT5_GENERAL || s1 == AWS_LS_MQTT5_CLIENT || s1 == AWS_LS_MQTT5_CANARY || s1 == AWS_LS_MQTT5_TO_MQTT3_ADAPTER {
        let t = if s2 == AWS_LS_MQTT_CLIENT || s2 == AWS_LS_MQTT_TOPIC_TREE || s2 == AWS_LS_MQTT5_GENERAL || s2 == AWS_LS_MQTT5_CLIENT || s2 == AWS_LS_MQTT5_CANARY || s2 == AWS_LS_MQTT5_TO_MQTT3_ADAPTER { s2 } else { s1 };
        lemma_package_5_targets(s1, t);
    } else if s1 == AWS_LS_AUTH_PROFILE || s1 == AWS_LS_AUTH_CREDENTIALS_PROVIDER || s1 == AWS_LS_AUTH_SIGNING || s1 == AWS_LS_IMDS_CLIENT {
        let t = if s2 == AWS_LS_AUTH_PROFILE || s2 == AWS_LS_AUTH_CREDENTIALS_PROVIDER || s2 == AWS_LS_AUTH_SIGNING || s2 == AWS_LS_IMDS_CLIENT { s2 } else { s1 };
        lemma_package_6_targets(s1, t);
    } else if s1 == AWS_LS_CAL_ECC || s1 == AWS_LS_CAL_HASH || s1 == AWS_LS_CAL_HMAC || s1 == AWS_LS_CAL_DER || s1 == AWS_LS_CAL_LIBCRYPTO_RESOLVE || s1 == AWS_LS_CAL_RSA {
        let t = if s2 == AWS_LS_CAL_ECC || s2 == AWS_LS_CAL_HASH || s2 == AWS_LS_CAL_HMAC || s2 == AWS_LS_CAL_DER || s2 == AWS_LS_CAL_LIBCRYPTO_RESOLVE || s2 == AWS_LS_CAL_RSA { s2 } else { s1 };
        lemma_package_7_targets(s1, t);
    } else if s1 == AWS_LS_IOTDEVICE_DEFENDER_TASK || s1 == AWS_LS_IOTDEVICE_DEFENDER_TASK_CONFIG || s1 == AWS_LS_IOTDEVICE_NETWORK_CONFIG || s1 == AWS_LS_IOTDEVICE_SECURE_TUNNELING {
        let t = if s2 == AWS_LS_IOTDEVICE_DEFENDER_TASK || s2 == AWS_LS_IOTDEVICE_DEFENDER_TASK_CONFIG || s2 == AWS_LS_IOTDEVICE_NETWORK_CONFIG || s2 == AWS_LS_IOTDEVICE_SECURE_TUNNELING { s2 } else { s1 };
        lemma_package_13_targets(s1, t);
    } else if s1 == AWS_LS_S3_CLIENT || s1 == AWS_LS_S3_CLIENT_STATS || s1 == AWS_LS_S3_REQUEST || s1 == AWS_LS_S3_META_REQUEST || s1 == AWS_LS_S3_ENDPOINT {
        let t = if s2 == AWS_LS_S3_CLIENT || s2 == AWS_LS_S3_CLIENT_STATS || s2 == AWS_LS_S3_REQUEST || s2 == AWS_LS_S3_META_REQUEST || s2 == AWS_LS_S3_ENDPOINT { s2 } else { s1 };
        lemma_package_14_targets(s1, t);
    } else if s1 == AWS_LS_SDKUTILS_PROFILE || s1 == AWS_LS_SDKUTILS_ENDPOINTS_PARSING || s1 == AWS_LS_SDKUTILS_ENDPOINTS_RESOLVE || s1 == AWS_LS_SDKUTILS_ENDPOINTS_GENERAL || s1 == AWS_LS_SDKUTILS_PARTITIONS_PARSING {
        let t = if s2 == AWS_LS_SDKUTILS_PROFILE || s2 == AWS_LS_SDKUTILS_ENDPOINTS_PARSING || s2 == AWS_LS_SDKUTILS_ENDPOINTS_RESOLVE || s2 == AWS_LS_SDKUTILS_ENDPOINTS_GENERAL || s2 == AWS_LS_SDKUTILS_PARTITIONS_PARSING { s2 } else { s1 };
        lemma_package_15_targets(s1, t);
    }
}

pub open spec fn opt_str_chars(o: Option<&'static str>) -> Option<Seq<char>> {
    match o {
        Some(s) => Some(s@),
        None => None,
    }
}

impl Subject {
    /// The package the subject belongs to.
    pub fn package_id(self) -> (r: PackageId)
        ensures
            r.0 == self.0 / 1024,
    {
        PackageId(self.0 / SUBJECT_STRIDE)
    }

    /// The `log` target of the subject: `aws::<package>::<subject>` for a
    /// known subject, `aws::<package>` for another subject of a known
    /// package, and `None` for a subject of an unknown package.
    pub fn static_target(self) -> (r: Option<&'static str>)
        ensures
            opt_str_chars(r) == static_target_of(self.0),
    {
        let subject = self.0;
        let package = self.package_id();
        if package.0 == AWS_C_COMMON_PACKAGE_ID {
            Some(
                if subject == AWS_LS_COMMON_TASK_SCHEDULER {
                    "aws::common::task_scheduler"
                } else if subject == AWS_LS_COMMON_THREAD {
                    "aws::common::thread"
                } else if subject == AWS_LS_COMMON_MEMTRACE {
                    "aws::common::memtrace"
                } else if subject == AWS_LS_COMMON_XML_PARSER {
                    "aws::common::xml_parser"
                } else if subject == AWS_LS_COMMON_IO {
                    "aws::common::io"
                } else if subject == AWS_LS_COMMON_BUS {
                    "aws::common::bus"
                } else if subject == AWS_LS_COMMON_TEST {
                    "aws::common::test"
                } else if subject == AWS_LS_COMMON_JSON_PARSER {
                    "aws::common::json_parser"
                } else {
                    "aws::common"
                },
            )
        } else if package.0 == AWS_C_IO_PACKAGE_ID {
            Some(
                if subject == AWS_LS_IO_EVENT_LOOP {
                    "aws::io::event_loop"
                } else if subject == AWS_LS_IO_SOCKET {
                    "aws::io::socket"
                } else if subject == AWS_LS_IO_SOCKET_HANDLER {
                    "aws::io::socket_handler"
                } else if subject == AWS_LS_IO_TLS {
                    "aws::io::tls"
                } else if subject == AWS_LS_IO_ALPN {
                    "aws::io::alpn"
                } else if subject == AWS_LS_IO_DNS {
                    "aws::io::dns"
                } else if subject == AWS_LS_IO_PKI {
                    "aws::io::pki"
                } else if subject == AWS_LS_IO_CHANNEL {
                    "aws::io::channel"
                } else if subject == AWS_LS_IO_CHANNEL_BOOTSTRAP {
                    "aws::io::channel_bootstrap"
                } else if subject == AWS_LS_IO_FILE_UTILS {
                    "aws::io::file_utils"
                } else if subject == AWS_LS_IO_SHARED_LIBRARY {
                    "aws::io::shared_library"
                } else if subject == AWS_LS_IO_EXPONENTIAL_BACKOFF_RETRY_STRATEGY {
                    "aws::io::exponential_backoff_retry_strategy"
                } else if subject == AWS_LS_IO_STANDARD_RETRY_STRATEGY {
                    "aws::io::standard_retry_strategy"
                } else if subject == AWS_LS_IO_PKCS11 {
                    "aws::io::pks11"
                } else if subject == AWS_LS_IO_PEM {
                    "aws::io::pem"
                } else {
                    "aws::io"
                },
            )
        } else if package.0 == AWS_C_HTTP_PACKAGE_ID {
            Some(
                if subject == AWS_LS_HTTP_CONNECTION {
                    "aws::http::connection"
                } else if subject == AWS_LS_HTTP_ENCODER {
                    "aws::http::encoder"
                } else if subject == AWS_LS_HTTP_DECODER {
                    "aws::http::decoder"
                } else if subject == AWS_LS_HTTP_SERVER {
                    "aws::http::server"
                } else if subject == AWS_LS_HTTP_STREAM {
                    "aws::http::stream"
                } else if subject == AWS_LS_HTTP_CONNECTION_MANAGER {
                    "aws::http::connection_manager"
                } else if subject == AWS_LS_HTTP_STREAM_MANAGER {
                    "aws::http::stream_manager"
                } else if subject == AWS_LS_HTTP_WEBSOCKET {
                    "aws::http::websocket"
                } else if subject == AWS_LS_HTTP_WEBSOCKET_SETUP {
                    "aws::http::websocket_setup"
                } else if subject == AWS_LS_HTTP_PROXY_NEGOTIATION {
                    "aws::http::proxy_negotiation"
                } else {
                    "aws::http"
                },
            )
        } else if package.0 == AWS_C_COMPRESSION_PACKAGE_ID {
            Some("aws::compression")
        } else if package.0 == AWS_C_EVENT_STREAM_PACKAGE_ID {
            Some(
                if subject == AWS_LS_EVENT_STREAM_CHANNEL_HANDLER {
                    "aws::event_stream::channel_handler"
                } else if subject == AWS_LS_EVENT_STREAM_RPC_SERVER {
                    "aws::event_stream::rpc_server"
                } else if subject == AWS_LS_EVENT_STREAM_RPC_CLIENT {
                    "aws::event_stream::rpc_client"
                } else {
                    "aws::event_stream"
                },
            )
        } else if package.0 == AWS_C_MQTT_PACKAGE_ID {
            Some(
                if subject == AWS_LS_MQTT_CLIENT {
                    "aws::mqtt::client"
                } else if subject == AWS_LS_MQTT_TOPIC_TREE {
                    "aws::mqtt::topic_tree"
                } else if subject == AWS_LS_MQTT5_GENERAL {
                    "aws::mqtt::v5::general"
                } else if subject == AWS_LS_MQTT5_CLIENT {
                    "aws::mqtt::v5::client"
                } else if subject == AWS_LS_MQTT5_CANARY {
                    "aws::mqtt::v5::canary"
                } else if subject == AWS_LS_MQTT5_TO_MQTT3_ADAPTER {
                    "aws::mqtt::v5::mqtt3_adapter"
                } else {
                    "aws::mqtt"
                },
            )
        } else if package.0 == AWS_C_AUTH_PACKAGE_ID {
            Some(
                if subject == AWS_LS_AUTH_PROFILE {
                    "aws::auth::profile"
                } else if subject == AWS_LS_AUTH_CREDENTIALS_PROVIDER {
                    "aws::auth::credentials_provider"
                } else if subject == AWS_LS_AUTH_SIGNING {
                    "aws::auth::signing"
                } else if subject == AWS_LS_IMDS_CLIENT {
                    "aws::auth::imds"
                } else {
                    "aws::auth"
                },
            )
        } else if package.0 == AWS_C_CAL_PACKAGE_ID {
            Some(
                if subject == AWS_LS_CAL_ECC {
                    "aws::cal::ecc"
                } else if subject == AWS_LS_CAL_HASH {
                    "aws::cal::hash"
                } else if subject == AWS_LS_CAL_HMAC {
                    "aws::cal::hmac"
                } else if subject == AWS_LS_CAL_DER {
                    "aws::cal::der"
                } else if subject == AWS_LS_CAL_LIBCRYPTO_RESOLVE {
                    "aws::cal::libcrypto_resolve"
                } else if subject == AWS_LS_CAL_RSA {
                    "aws::cal::rsa"
                } else {
                    "aws::cal"
                },
            )
        } else if package.0 == AWS_C_IOTDEVICE_PACKAGE_ID {
            Some(
                if subject == AWS_LS_IOTDEVICE_DEFENDER_TASK {
                    "aws::iotdevice::defender_task"
                } else if subject == AWS_LS_IOTDEVICE_DEFENDER_TASK_CONFIG {
                    "aws::iotdevice::defender_task_config"
                } else if subject == AWS_LS_IOTDEVICE_NETWORK_CONFIG {
                    "aws::iotdevice::network_config"
                } else if subject == AWS_LS_IOTDEVICE_SECURE_TUNNELING {
                    "aws::iotdevice::secure_tunneling"
                } else {
                    "aws::iotdevice"
                },
            )
        } else if package.0 == AWS_C_S3_PACKAGE_ID {
            Some(
                if subject == AWS_LS_S3_CLIENT {
                    "aws::s3::client"
                } else if subject == AWS_LS_S3_CLIENT_STATS {
                    "aws::s3::client_stats"
                } else if subject == AWS_LS_S3_REQUEST {
                    "aws::s3::requests"
                } else if subject == AWS_LS_S3_META_REQUEST {
                    "aws::s3::meta_requests"
                } else if subject == AWS_LS_S3_ENDPOINT {
                    "aws::s3::endpoint"
                } else {
                    "aws::s3"
                },
            )
        } else if package.0 == AWS_C_SDKUTILS_PACKAGE_ID {
            Some(
                if subject == AWS_LS_SDKUTILS_PROFILE {
                    "aws::sdkutils::profile"
                } else if subject == AWS_LS_SDKUTILS_ENDPOINTS_PARSING {
                    "aws::sdkutils::endpoints_parsing"
                } else if subject == AWS_LS_SDKUTILS_ENDPOINTS_RESOLVE {
                    "aws::sdkutils::endpoints_resolve"
                } else if subject == AWS_LS_SDKUTILS_ENDPOINTS_GENERAL {
                    "aws::sdkutils::endpoints_general"
                } else if subject == AWS_LS_SDKUTILS_PARTITIONS_PARSING {
                    "aws::sdkutils::partitions_parsing"
                } else {
                    "aws::sdkutils"
                },
            )
        } else {
            None
        }
    }
}

} // verus!

verus! {

/// `aws_log_level` values.
pub const AWS_LL_NONE: u32 = 0;
pub const AWS_LL_FATAL: u32 = 1;
pub const AWS_LL_ERROR: u32 = 2;
pub const AWS_LL_WARN: u32 = 3;
pub const AWS_LL_INFO: u32 = 4;
pub const AWS_LL_DEBUG: u32 = 5;
pub const AWS_LL_TRACE: u32 = 6;

/// Verbosity of a log record, least verbose first (as `log::Level`).
#[derive(Clone, Copy, Debug, PartialEq, Eq, Structural)]
pub enum LogLevel {
    Error,
    Warn,
    Info,
    Debug,
    Trace,
}

/// Most verbose level let through, or none (as `log::LevelFilter`).
#[derive(Clone, Copy, Debug, PartialEq, Eq, Structural)]
pub enum LevelFilter {
    Off,
    Error,
    Warn,
    Info,
    Debug,
    Trace,
}

pub open spec fn level_rank(l: LogLevel) -> int {
    match l {
        LogLevel::Error => 1,
        LogLevel::Warn => 2,
        LogLevel::Info => 3,
        LogLevel::Debug => 4,
        LogLevel::Trace => 5,
    }
}

pub open spec fn filter_rank(f: LevelFilter) -> int {
    match f {
        LevelFilter::Off => 0,
        LevelFilter::Error => 1,
        LevelFilter::Warn => 2,
        LevelFilter::Info => 3,
        LevelFilter::Debug => 4,
        LevelFilter::Trace => 5,
    }
}

pub open spec fn spec_aws_level_to_log(level: u32) -> LogLevel {
    if level == AWS_LL_FATAL || level == AWS_LL_ERROR {
        LogLevel::Error
    } else if level == AWS_LL_WARN {
        LogLevel::Warn
    } else if level == AWS_LL_INFO {
        LogLevel::Info
    } else if level == AWS_LL_DEBUG {
        LogLevel::Debug
    } else {
        LogLevel::Trace
    }
}

pub open spec fn spec_filter_to_aws(f: LevelFilter) -> u32 {
    match f {
        LevelFilter::Off => AWS_LL_FATAL,
        LevelFilter::Error => AWS_LL_ERROR,
        LevelFilter::Warn => AWS_LL_WARN,
        LevelFilter::Info => AWS_LL_INFO,
        LevelFilter::Debug => AWS_LL_DEBUG,
        LevelFilter::Trace => AWS_LL_TRACE,
    }
}

/// The `log` level of an AWS log level: fatal and error are errors, and
/// trace or any unknown level is trace.
pub fn aws_level_to_log(level: u32) -> (r: LogLevel)
    ensures
        r == spec_aws_level_to_log(level),
{
    if level == AWS_LL_FATAL || level == AWS_LL_ERROR {
        LogLevel::Error
    } else if level == AWS_LL_WARN {
        LogLevel::Warn
    } else if level == AWS_LL_INFO {
        LogLevel::Info
    } else if level == AWS_LL_DEBUG {
        LogLevel::Debug
    } else {
        LogLevel::Trace
    }
}

/// The AWS log level that lets through what a `log` filter lets through;
/// `Off` becomes fatal, the least verbose AWS level.
pub fn log_level_filter_to_aws(level: LevelFilter) -> (r: u32)
    ensures
        r == spec_filter_to_aws(level),
{
    match level {
        LevelFilter::Off => AWS_LL_FATAL,
        LevelFilter::Error => AWS_LL_ERROR,
        LevelFilter::Warn => AWS_LL_WARN,
        LevelFilter::Info => AWS_LL_INFO,
        LevelFilter::Debug => AWS_LL_DEBUG,
        LevelFilter::Trace => AWS_LL_TRACE,
    }
}

/// The filter that lets through `level` and everything less verbose
/// (`log::Level::to_level_filter`).
pub fn level_to_filter(level: LogLevel) -> (r: LevelFilter)
    ensures
        filter_rank(r) == level_rank(level),
{
    match level {
        LogLevel::Error => LevelFilter::Error,
        LogLevel::Warn => LevelFilter::Warn,
        LogLevel::Info => LevelFilter::Info,
        LogLevel::Debug => LevelFilter::Debug,
        LogLevel::Trace => LevelFilter::Trace,
    }
}

/// Whether a record of `level` passes `filter` (`level <= filter`).
pub fn level_enabled(level: LogLevel, filter: LevelFilter) -> (r: bool)
    ensures
        r == (level_rank(level) <= filter_rank(filter)),
{
    let l: u8 = match level {
        LogLevel::Error => 1,
        LogLevel::Warn => 2,
        LogLevel::Info => 3,
        LogLevel::Debug => 4,
        LogLevel::Trace => 5,
    };
    let f: u8 = match filter {
        LevelFilter::Off => 0,
        LevelFilter::Error => 1,
        LevelFilter::Warn => 2,
        LevelFilter::Info => 3,
        LevelFilter::Debug => 4,
        LevelFilter::Trace => 5,
    };
    l <= f
}

/// Handing a `log` filter to the AWS libraries and reading the AWS level
/// back gives the level of the filter, for every filter but `Off`, which
/// comes back as `Error`.
pub proof fn lemma_filter_level_round_trip(f: LevelFilter)
    ensures
        f != LevelFilter::Off ==> filter_rank(f) == level_rank(
            spec_aws_level_to_log(spec_filter_to_aws(f)),
        ),
        f == LevelFilter::Off ==> spec_aws_level_to_log(spec_filter_to_aws(f)) == LogLevel::Error,
{
}

/// Setting the level filter from an AWS level and reading it back as an AWS
/// level gives the same level, for each of the levels from error to trace.
pub proof fn lemma_aws_level_round_trip(level: u32)
    requires
        AWS_LL_ERROR <= level <= AWS_LL_TRACE,
    ensures
        forall|f: LevelFilter|
            filter_rank(f) == level_rank(spec_aws_level_to_log(level)) ==> spec_filter_to_aws(f)
                == level,
{
}

/// A hexadecimal digit in lower case.
pub open spec fn hex_digit(d: u8) -> char {
    if d < 10 {
        ((d as u32) + 48) as char
    } else {
        ((d as u32) + 87) as char
    }
}

/// `u8::escape_ascii` of one byte: tab, carriage return, line feed,
/// backslash and both quotes by a backslash escape, the other printable
/// ASCII characters as themselves, and any other byte as `\x` and two
/// lower-case hexadecimal digits.
pub open spec fn escaped_byte(b: u8) -> Seq<char> {
    if b == 0x09 {
        seq!['\\', 't']
    } else if b == 0x0d {
        seq!['\\', 'r']
    } else if b == 0x0a {
        seq!['\\', 'n']
    } else if b == 0x5c || b == 0x27 || b == 0x22 {
        seq!['\\', b as char]
    } else if 0x20 <= b <= 0x7e {
        seq![b as char]
    } else {
        seq!['\\', 'x', hex_digit(b / 16), hex_digit(b % 16)]
    }
}

/// `<[u8]>::escape_ascii`: each byte escaped, in order.
pub open spec fn escaped(bs: Seq<u8>) -> Seq<char>
    decreases bs.len(),
{
    if bs.len() == 0 {
        seq![]
    } else {
        escaped(bs.drop_last()) + escaped_byte(bs.last())
    }
}

fn hex_char(d: u8) -> (c: char)
    requires
        d < 16,
    ensures
        c == hex_digit(d),
{
    if d < 10 {
        (d + 48) as char
    } else {
        (d + 87) as char
    }
}

fn push_escaped(out: &mut String, b: u8)
    ensures
        final(out)@ == old(out)@ + escaped_byte(b),
{
    if b == 0x09 {
        string_push(out, '\\');
        string_push(out, 't');
    } else if b == 0x0d {
        string_push(out, '\\');
        string_push(out, 'r');
    } else if b == 0x0a {
        string_push(out, '\\');
        string_push(out, 'n');
    } else if b == 0x5c || b == 0x27 || b == 0x22 {
        string_push(out, '\\');
        string_push(out, b as char);
    } else if 0x20 <= b && b <= 0x7e {
        string_push(out, b as char);
    } else {
        string_push(out, '\\');
        string_push(out, 'x');
        string_push(out, hex_char(b / 16));
        string_push(out, hex_char(b % 16));
    }
}

impl Subject {
    /// The `log` target of the subject: its static target when it has one,
    /// else `aws::` and the subject's name (as the AWS library reports it,
    /// `subject_name`) with its bytes escaped.
    pub fn target(self, subject_name: &[u8]) -> (r: String)
        ensures
            r@ == (match static_target_of(self.0) {
                Some(t) => t,
                None => "aws::"@ + escaped(subject_name@),
            }),
    {
        match self.static_target() {
            Some(t) => t.to_owned(),
            None => {
                let mut out = String::from_str("aws::");
                let ghost start = out@;
                for i in 0..subject_name.len()
                    invariant
                        start == "aws::"@,
                        out@ == start + escaped(subject_name@.take(i as int)),
                {
                    push_escaped(&mut out, subject_name[i]);
                    assert(subject_name@.take(i + 1).drop_last() == subject_name@.take(i as int));
                }
                assert(subject_name@.take(subject_name.len() as int) == subject_name@);
                out
            },
        }
    }
}

} // verus!
