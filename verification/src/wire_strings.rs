//! The fixed strings of the command protocol, as byte vectors with their
//! contents stated.

use vstd::prelude::*;

use crate::bytes_util::push_slice;

verus! {

/// The command name of a result reply.
pub open spec fn spec_result_name() -> Seq<u8> {
    seq![0x5fu8, 0x72u8, 0x65u8, 0x73u8, 0x75u8, 0x6cu8, 0x74u8]
}

/// Builds the bytes of `spec_result_name`.
pub fn result_name() -> (r: Vec<u8>)
    ensures
        r@ == spec_result_name(),
{
    let s: &[u8] = "_result".as_bytes();
    proof {
        reveal_strlit("_result");
        assert(vstd::string::is_ascii("_result"));
        vstd::string::is_ascii_spec_bytes("_result");
        assert(s@ =~= spec_result_name());
    }
    let mut v: Vec<u8> = Vec::new();
    push_slice(&mut v, s);
    v
}

/// The command name of a status reply.
pub open spec fn spec_on_status_name() -> Seq<u8> {
    seq![0x6fu8, 0x6eu8, 0x53u8, 0x74u8, 0x61u8, 0x74u8, 0x75u8, 0x73u8]
}

/// Builds the bytes of `spec_on_status_name`.
pub fn on_status_name() -> (r: Vec<u8>)
    ensures
        r@ == spec_on_status_name(),
{
    let s: &[u8] = "onStatus".as_bytes();
    proof {
        reveal_strlit("onStatus");
        assert(vstd::string::is_ascii("onStatus"));
        vstd::string::is_ascii_spec_bytes("onStatus");
        assert(s@ =~= spec_on_status_name());
    }
    let mut v: Vec<u8> = Vec::new();
    push_slice(&mut v, s);
    v
}

/// The key of the server version field in a connect reply.
pub open spec fn spec_key_fms_ver() -> Seq<u8> {
    seq![0x66u8, 0x6du8, 0x73u8, 0x56u8, 0x65u8, 0x72u8]
}

/// Builds the bytes of `spec_key_fms_ver`.
pub fn key_fms_ver() -> (r: Vec<u8>)
    ensures
        r@ == spec_key_fms_ver(),
{
    let s: &[u8] = "fmsVer".as_bytes();
    proof {
        reveal_strlit("fmsVer");
        assert(vstd::string::is_ascii("fmsVer"));
        vstd::string::is_ascii_spec_bytes("fmsVer");
        assert(s@ =~= spec_key_fms_ver());
    }
    let mut v: Vec<u8> = Vec::new();
    push_slice(&mut v, s);
    v
}

/// The key of the capabilities field in a connect reply.
pub open spec fn spec_key_capabilities() -> Seq<u8> {
    seq![0x63u8, 0x61u8, 0x70u8, 0x61u8, 0x62u8, 0x69u8, 0x6cu8, 0x69u8, 0x74u8, 0x69u8, 0x65u8, 0x73u8]
}

/// Builds the bytes of `spec_key_capabilities`.
pub fn key_capabilities() -> (r: Vec<u8>)
    ensures
        r@ == spec_key_capabilities(),
{
    let s: &[u8] = "capabilities".as_bytes();
    proof {
        reveal_strlit("capabilities");
        assert(vstd::string::is_ascii("capabilities"));
        vstd::string::is_ascii_spec_bytes("capabilities");
        assert(s@ =~= spec_key_capabilities());
    }
    let mut v: Vec<u8> = Vec::new();
    push_slice(&mut v, s);
    v
}

/// The key of the level field in a status object.
pub open spec fn spec_key_level() -> Seq<u8> {
    seq![0x6cu8, 0x65u8, 0x76u8, 0x65u8, 0x6cu8]
}

/// Builds the bytes of `spec_key_level`.
pub fn key_level() -> (r: Vec<u8>)
    ensures
        r@ == spec_key_level(),
{
    let s: &[u8] = "level".as_bytes();
    proof {
        reveal_strlit("level");
        assert(vstd::string::is_ascii("level"));
        vstd::string::is_ascii_spec_bytes("level");
        assert(s@ =~= spec_key_level());
    }
    let mut v: Vec<u8> = Vec::new();
    push_slice(&mut v, s);
    v
}

/// The key of the code field in a status object.
pub open spec fn spec_key_code() -> Seq<u8> {
    seq![0x63u8, 0x6fu8, 0x64u8, 0x65u8]
}

/// Builds the bytes of `spec_key_code`.
pub fn key_code() -> (r: Vec<u8>)
    ensures
        r@ == spec_key_code(),
{
    let s: &[u8] = "code".as_bytes();
    proof {
        reveal_strlit("code");
        assert(vstd::string::is_ascii("code"));
        vstd::string::is_ascii_spec_bytes("code");
        assert(s@ =~= spec_key_code());
    }
    let mut v: Vec<u8> = Vec::new();
    push_slice(&mut v, s);
    v
}

/// The key of the description field in a status object.
pub open spec fn spec_key_description() -> Seq<u8> {
    seq![0x64u8, 0x65u8, 0x73u8, 0x63u8, 0x72u8, 0x69u8, 0x70u8, 0x74u8, 0x69u8, 0x6fu8, 0x6eu8]
}

/// Builds the bytes of `spec_key_description`.
pub fn key_description() -> (r: Vec<u8>)
    ensures
        r@ == spec_key_description(),
{
    let s: &[u8] = "description".as_bytes();
    proof {
        reveal_strlit("description");
        assert(vstd::string::is_ascii("description"));
        vstd::string::is_ascii_spec_bytes("description");
        assert(s@ =~= spec_key_description());
    }
    let mut v: Vec<u8> = Vec::new();
    push_slice(&mut v, s);
    v
}

/// The key of the object-encoding field in a connect reply.
pub open spec fn spec_key_object_encoding() -> Seq<u8> {
    seq![0x6fu8, 0x62u8, 0x6au8, 0x65u8, 0x63u8, 0x74u8, 0x45u8, 0x6eu8, 0x63u8, 0x6fu8, 0x64u8, 0x69u8, 0x6eu8, 0x67u8]
}

/// Builds the bytes of `spec_key_object_encoding`.
pub fn key_object_encoding() -> (r: Vec<u8>)
    ensures
        r@ == spec_key_object_encoding(),
{
    let s: &[u8] = "objectEncoding".as_bytes();
    proof {
        reveal_strlit("objectEncoding");
        assert(vstd::string::is_ascii("objectEncoding"));
        vstd::string::is_ascii_spec_bytes("objectEncoding");
        assert(s@ =~= spec_key_object_encoding());
    }
    let mut v: Vec<u8> = Vec::new();
    push_slice(&mut v, s);
    v
}

/// The key that names the application in a connect request.
pub open spec fn spec_key_app() -> Seq<u8> {
    seq![0x61u8, 0x70u8, 0x70u8]
}

/// Builds the bytes of `spec_key_app`.
pub fn key_app() -> (r: Vec<u8>)
    ensures
        r@ == spec_key_app(),
{
    let s: &[u8] = "app".as_bytes();
    proof {
        reveal_strlit("app");
        assert(vstd::string::is_ascii("app"));
        vstd::string::is_ascii_spec_bytes("app");
        assert(s@ =~= spec_key_app());
    }
    let mut v: Vec<u8> = Vec::new();
    push_slice(&mut v, s);
    v
}

/// The fixed server version descriptor sent in a connect reply.
pub open spec fn spec_fms_version() -> Seq<u8> {
    seq![0x46u8, 0x4du8, 0x53u8, 0x2fu8, 0x33u8, 0x2cu8, 0x30u8, 0x2cu8, 0x31u8, 0x2cu8, 0x31u8, 0x32u8, 0x33u8]
}

/// Builds the bytes of `spec_fms_version`.
pub fn fms_version() -> (r: Vec<u8>)
    ensures
        r@ == spec_fms_version(),
{
    let s: &[u8] = "FMS/3,0,1,123".as_bytes();
    proof {
        reveal_strlit("FMS/3,0,1,123");
        assert(vstd::string::is_ascii("FMS/3,0,1,123"));
        vstd::string::is_ascii_spec_bytes("FMS/3,0,1,123");
        assert(s@ =~= spec_fms_version());
    }
    let mut v: Vec<u8> = Vec::new();
    push_slice(&mut v, s);
    v
}

/// The status level of a successful reply.
pub open spec fn spec_level_status() -> Seq<u8> {
    seq![0x73u8, 0x74u8, 0x61u8, 0x74u8, 0x75u8, 0x73u8]
}

/// Builds the bytes of `spec_level_status`.
pub fn level_status() -> (r: Vec<u8>)
    ensures
        r@ == spec_level_status(),
{
    let s: &[u8] = "status".as_bytes();
    proof {
        reveal_strlit("status");
        assert(vstd::string::is_ascii("status"));
        vstd::string::is_ascii_spec_bytes("status");
        assert(s@ =~= spec_level_status());
    }
    let mut v: Vec<u8> = Vec::new();
    push_slice(&mut v, s);
    v
}

/// The code of a successful connect reply.
pub open spec fn spec_code_connect_success() -> Seq<u8> {
    seq![0x4eu8, 0x65u8, 0x74u8, 0x43u8, 0x6fu8, 0x6eu8, 0x6eu8, 0x65u8, 0x63u8, 0x74u8, 0x69u8, 0x6fu8, 0x6eu8, 0x2eu8, 0x43u8, 0x6fu8, 0x6eu8, 0x6eu8, 0x65u8, 0x63u8, 0x74u8, 0x2eu8, 0x53u8, 0x75u8, 0x63u8, 0x63u8, 0x65u8, 0x73u8, 0x73u8]
}

/// Builds the bytes of `spec_code_connect_success`.
pub fn code_connect_success() -> (r: Vec<u8>)
    ensures
        r@ == spec_code_connect_success(),
{
    let s: &[u8] = "NetConnection.Connect.Success".as_bytes();
    proof {
        reveal_strlit("NetConnection.Connect.Success");
        assert(vstd::string::is_ascii("NetConnection.Connect.Success"));
        vstd::string::is_ascii_spec_bytes("NetConnection.Connect.Success");
        assert(s@ =~= spec_code_connect_success());
    }
    let mut v: Vec<u8> = Vec::new();
    push_slice(&mut v, s);
    v
}

/// The description of a successful connect reply.
pub open spec fn spec_desc_connect_success() -> Seq<u8> {
    seq![0x43u8, 0x6fu8, 0x6eu8, 0x6eu8, 0x65u8, 0x63u8, 0x74u8, 0x69u8, 0x6fu8, 0x6eu8, 0x20u8, 0x53u8, 0x75u8, 0x63u8, 0x63u8, 0x65u8, 0x65u8, 0x64u8, 0x65u8, 0x64u8, 0x2eu8]
}

/// Builds the bytes of `spec_desc_connect_success`.
pub fn desc_connect_success() -> (r: Vec<u8>)
    ensures
        r@ == spec_desc_connect_success(),
{
    let s: &[u8] = "Connection Succeeded.".as_bytes();
    proof {
        reveal_strlit("Connection Succeeded.");
        assert(vstd::string::is_ascii("Connection Succeeded."));
        vstd::string::is_ascii_spec_bytes("Connection Succeeded.");
        assert(s@ =~= spec_desc_connect_success());
    }
    let mut v: Vec<u8> = Vec::new();
    push_slice(&mut v, s);
    v
}

/// The code of a publish-start status reply.
pub open spec fn spec_code_publish_start() -> Seq<u8> {
    seq![0x4eu8, 0x65u8, 0x74u8, 0x53u8, 0x74u8, 0x72u8, 0x65u8, 0x61u8, 0x6du8, 0x2eu8, 0x50u8, 0x75u8, 0x62u8, 0x6cu8, 0x69u8, 0x73u8, 0x68u8, 0x2eu8, 0x53u8, 0x74u8, 0x61u8, 0x72u8, 0x74u8]
}

/// Builds the bytes of `spec_code_publish_start`.
pub fn code_publish_start() -> (r: Vec<u8>)
    ensures
        r@ == spec_code_publish_start(),
{
    let s: &[u8] = "NetStream.Publish.Start".as_bytes();
    proof {
        reveal_strlit("NetStream.Publish.Start");
        assert(vstd::string::is_ascii("NetStream.Publish.Start"));
        vstd::string::is_ascii_spec_bytes("NetStream.Publish.Start");
        assert(s@ =~= spec_code_publish_start());
    }
    let mut v: Vec<u8> = Vec::new();
    push_slice(&mut v, s);
    v
}

/// The code of a delete-stream status reply; its spelling is fixed by the wire protocol as deployed.
pub open spec fn spec_code_delete_stream_success() -> Seq<u8> {
    seq![0x4eu8, 0x65u8, 0x74u8, 0x53u8, 0x74u8, 0x72u8, 0x65u8, 0x61u8, 0x6du8, 0x2eu8, 0x44u8, 0x65u8, 0x6cu8, 0x65u8, 0x74u8, 0x65u8, 0x53u8, 0x74u8, 0x72u8, 0x65u8, 0x61u8, 0x6du8, 0x2eu8, 0x53u8, 0x75u8, 0x63u8, 0x65u8, 0x65u8, 0x73u8, 0x73u8]
}

/// Builds the bytes of `spec_code_delete_stream_success`.
pub fn code_delete_stream_success() -> (r: Vec<u8>)
    ensures
        r@ == spec_code_delete_stream_success(),
{
    let s: &[u8] = "NetStream.DeleteStream.Suceess".as_bytes();
    proof {
        reveal_strlit("NetStream.DeleteStream.Suceess");
        assert(vstd::string::is_ascii("NetStream.DeleteStream.Suceess"));
        vstd::string::is_ascii_spec_bytes("NetStream.DeleteStream.Suceess");
        assert(s@ =~= spec_code_delete_stream_success());
    }
    let mut v: Vec<u8> = Vec::new();
    push_slice(&mut v, s);
    v
}

/// The empty string.
pub open spec fn spec_empty_text() -> Seq<u8> {
    Seq::<u8>::empty()
}

/// Builds the bytes of `spec_empty_text`.
pub fn empty_text() -> (r: Vec<u8>)
    ensures
        r@ == spec_empty_text(),
{
    let v: Vec<u8> = Vec::new();
    proof {
        assert(v@ =~= Seq::<u8>::empty());
    }
    v
}

/// The connect command name.
pub open spec fn spec_cmd_connect() -> Seq<u8> {
    seq![0x63u8, 0x6fu8, 0x6eu8, 0x6eu8, 0x65u8, 0x63u8, 0x74u8]
}

/// Builds the bytes of `spec_cmd_connect`.
pub fn cmd_connect() -> (r: Vec<u8>)
    ensures
        r@ == spec_cmd_connect(),
{
    let s: &[u8] = "connect".as_bytes();
    proof {
        reveal_strlit("connect");
        assert(vstd::string::is_ascii("connect"));
        vstd::string::is_ascii_spec_bytes("connect");
        assert(s@ =~= spec_cmd_connect());
    }
    let mut v: Vec<u8> = Vec::new();
    push_slice(&mut v, s);
    v
}

/// The create-stream command name.
pub open spec fn spec_cmd_create_stream() -> Seq<u8> {
    seq![0x63u8, 0x72u8, 0x65u8, 0x61u8, 0x74u8, 0x65u8, 0x53u8, 0x74u8, 0x72u8, 0x65u8, 0x61u8, 0x6du8]
}

/// Builds the bytes of `spec_cmd_create_stream`.
pub fn cmd_create_stream() -> (r: Vec<u8>)
    ensures
        r@ == spec_cmd_create_stream(),
{
    let s: &[u8] = "createStream".as_bytes();
    proof {
        reveal_strlit("createStream");
        assert(vstd::string::is_ascii("createStream"));
        vstd::string::is_ascii_spec_bytes("createStream");
        assert(s@ =~= spec_cmd_create_stream());
    }
    let mut v: Vec<u8> = Vec::new();
    push_slice(&mut v, s);
    v
}

/// The delete-stream command name.
pub open spec fn spec_cmd_delete_stream() -> Seq<u8> {
    seq![0x64u8, 0x65u8, 0x6cu8, 0x65u8, 0x74u8, 0x65u8, 0x53u8, 0x74u8, 0x72u8, 0x65u8, 0x61u8, 0x6du8]
}

/// Builds the bytes of `spec_cmd_delete_stream`.
pub fn cmd_delete_stream() -> (r: Vec<u8>)
    ensures
        r@ == spec_cmd_delete_stream(),
{
    let s: &[u8] = "deleteStream".as_bytes();
    proof {
        reveal_strlit("deleteStream");
        assert(vstd::string::is_ascii("deleteStream"));
        vstd::string::is_ascii_spec_bytes("deleteStream");
        assert(s@ =~= spec_cmd_delete_stream());
    }
    let mut v: Vec<u8> = Vec::new();
    push_slice(&mut v, s);
    v
}

/// The publish command name.
pub open spec fn spec_cmd_publish() -> Seq<u8> {
    seq![0x70u8, 0x75u8, 0x62u8, 0x6cu8, 0x69u8, 0x73u8, 0x68u8]
}

/// Builds the bytes of `spec_cmd_publish`.
pub fn cmd_publish() -> (r: Vec<u8>)
    ensures
        r@ == spec_cmd_publish(),
{
    let s: &[u8] = "publish".as_bytes();
    proof {
        reveal_strlit("publish");
        assert(vstd::string::is_ascii("publish"));
        vstd::string::is_ascii_spec_bytes("publish");
        assert(s@ =~= spec_cmd_publish());
    }
    let mut v: Vec<u8> = Vec::new();
    push_slice(&mut v, s);
    v
}

/// The play command name.
pub open spec fn spec_cmd_play() -> Seq<u8> {
    seq![0x70u8, 0x6cu8, 0x61u8, 0x79u8]
}

/// Builds the bytes of `spec_cmd_play`.
pub fn cmd_play() -> (r: Vec<u8>)
    ensures
        r@ == spec_cmd_play(),
{
    let s: &[u8] = "play".as_bytes();
    proof {
        reveal_strlit("play");
        assert(vstd::string::is_ascii("play"));
        vstd::string::is_ascii_spec_bytes("play");
        assert(s@ =~= spec_cmd_play());
    }
    let mut v: Vec<u8> = Vec::new();
    push_slice(&mut v, s);
    v
}

} // verus!
