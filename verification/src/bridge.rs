//! The plugin's life as the host drives it: register, init, any number of
//! flushes, exit, and the release of what register stored.
//!
//! Each step takes the one plugin instance by exclusive reference, so no two
//! steps ever run on it at once, and hands the host one of the three codes.

use vstd::prelude::*;
use crate::descriptor::{flb_plugin_proxy_def, PluginInfo};
use crate::host_string::{
    borrow_host_str, host_decoding, host_encoding, is_host_string, lemma_round_trip,
    to_host_string,
};
use crate::outcome::{outcome_code, outcome_code_spec, FLBError, FLBResult};
use crate::plugin::{FLBPlugin, FLBPluginMethods};

verus! {

/// The code that register hands the host: that of the plugin's failure
/// where it failed; else 1 where both its name and its description can be
/// carried by a host string, and 0 where one of them cannot.
pub open spec fn register_code(outcome: FLBResult, name: Seq<char>, description: Seq<char>) -> int {
    match outcome {
        Err(e) => outcome_code_spec(Err(e)),
        Ok(()) => if host_encoding(name) is Some && host_encoding(description) is Some {
            1
        } else {
            0
        },
    }
}

/// Completes a registration with what the plugin answered.
///
/// The protocol's constants are written in every case. Where the plugin
/// succeeded and both strings can be encoded, the descriptor receives the
/// two host strings and the code is 1. In every other case the descriptor's
/// strings stay as they were.
pub fn store_identity(
    def: &mut flb_plugin_proxy_def,
    outcome: FLBResult,
    info: &PluginInfo,
) -> (code: i32)
    ensures
        final(def).has_protocol_constants(),
        code == register_code(outcome, info.name@, info.description@),
        code == 1 ==> final(def).name_bytes() == host_encoding(info.name@)
            && final(def).description_bytes() == host_encoding(info.description@),
        code != 1 ==> final(def).name == old(def).name
            && final(def).description == old(def).description,
{
    def.write_protocol_constants();
    match outcome {
        Err(e) => i32::from(e),
        Ok(()) => {
            let name = match to_host_string(info.name.as_str()) {
                Ok(mem) => mem,
                Err(_) => {
                    return 0;
                },
            };
            let description = match to_host_string(info.description.as_str()) {
                Ok(mem) => mem,
                Err(_) => {
                    return 0;
                },
            };
            def.name = Some(name);
            def.description = Some(description);
            1
        },
    }
}

/// A registration that ended with code 1 left in the descriptor two host
/// strings that read back as the very name and description that the plugin
/// gave: whatever the texts are, as long as neither holds a zero byte.
pub proof fn lemma_registered_identity_reads_back(name: Seq<char>, description: Seq<char>)
    requires
        host_encoding(name) is Some,
        host_encoding(description) is Some,
    ensures
        register_code(Ok(()), name, description) == 1,
        host_decoding(host_encoding(name).unwrap()) == Some(name),
        host_decoding(host_encoding(description).unwrap()) == Some(description),
{
    lemma_round_trip(name);
    lemma_round_trip(description);
}

/// Registers the plugin: asks it for its name and description and stores
/// them in the host's descriptor.
///
/// Whatever the plugin does, the descriptor ends with the protocol's
/// constants. The plugin is asked once, with an empty record; the code is
/// that of its answer, but 0 where it succeeded and its name or description
/// holds a zero byte. With code 1 the descriptor holds the two texts as host
/// strings; with any other code its strings are untouched.
pub fn flb_plugin_register<P: FLBPluginMethods>(
    plugin: &mut P,
    def: &mut flb_plugin_proxy_def,
) -> (code: i32)
    ensures
        final(def).has_protocol_constants(),
        (exists|outcome: FLBResult, asked: &mut P, info: &mut PluginInfo|
            {
                &&& *asked == *old(plugin)
                &&& *final(asked) == *final(plugin)
                &&& info.name@ == Seq::<char>::empty()
                &&& info.description@ == Seq::<char>::empty()
                &&& #[trigger] call_ensures(P::plugin_register, (asked, info), outcome)
                &&& code == register_code(outcome, final(info).name@, final(info).description@)
                &&& code == 1 ==> final(def).name_bytes() == host_encoding(final(info).name@)
                    && final(def).description_bytes() == host_encoding(final(info).description@)
            }),
        code == 1 ==> final(def).name_bytes() is Some && is_host_string(
            final(def).name_bytes().unwrap(),
        ) && final(def).description_bytes() is Some && is_host_string(
            final(def).description_bytes().unwrap(),
        ),
        code != 1 ==> final(def).name == old(def).name
            && final(def).description == old(def).description,
{
    let mut info = PluginInfo::default();
    let outcome = plugin.plugin_register(&mut info);
    let code = store_identity(def, outcome, &info);
    proof {
        if code == 1 {
            lemma_round_trip(info.name@);
            lemma_round_trip(info.description@);
        }
    }
    code
}

/// Initializes the plugin, which may ask the host for its configuration
/// through `host` while the call lasts.
///
/// The plugin's init is called once, with `host`, and the code is that of
/// its answer.
pub fn flb_plugin_init<P: FLBPluginMethods, F: Fn(Vec<u8>) -> Option<Vec<u8>>>(
    plugin: &mut P,
    host: &FLBPlugin<F>,
) -> (code: i32)
    ensures
        (exists|outcome: FLBResult, asked: &mut P|
            {
                &&& *asked == *old(plugin)
                &&& *final(asked) == *final(plugin)
                &&& #[trigger] call_ensures(P::plugin_init::<F>, (asked, host), outcome)
                &&& code == outcome_code_spec(outcome)
            }),
{
    let outcome = plugin.plugin_init(host);
    outcome_code(outcome)
}

/// Reads the tag of a flush from the host's memory.
///
/// A tag that is no text is a failure that the host must not retry.
pub fn flush_tag<'a>(tag: &'a [u8]) -> (r: Result<&'a str, FLBError>)
    ensures
        match r {
            Ok(text) => host_decoding(tag@) == Some(text@),
            Err(e) => e == FLBError::FLB_ERROR && host_decoding(tag@) is None,
        },
{
    match borrow_host_str(tag) {
        Ok(text) => Ok(text),
        Err(_) => Err(FLBError::FLB_ERROR),
    }
}

/// Hands one batch of records to the plugin.
///
/// `tag` is the host's memory at the tag's address. Where no text can be
/// read from it the plugin is not called and the code is 0. Else the
/// plugin's flush is called once, with `data` and the tag's text, and the
/// code is that of its answer.
pub fn flb_plugin_flush<P: FLBPluginMethods>(plugin: &mut P, data: &[u8], tag: &[u8]) -> (code: i32)
    ensures
        host_decoding(tag@) is None ==> code == 0 && *final(plugin) == *old(plugin),
        host_decoding(tag@) is Some ==> (exists|outcome: FLBResult, asked: &mut P, text: &str|
            {
                &&& *asked == *old(plugin)
                &&& *final(asked) == *final(plugin)
                &&& Some(text@) == host_decoding(tag@)
                &&& #[trigger] call_ensures(P::plugin_flush, (asked, data, text), outcome)
                &&& code == outcome_code_spec(outcome)
            }),
{
    match flush_tag(tag) {
        Err(e) => i32::from(e),
        Ok(text) => {
            let outcome = plugin.plugin_flush(data, text);
            outcome_code(outcome)
        },
    }
}

/// Tells the plugin that the host is done with it.
///
/// The plugin's exit is called once, and the code is that of its answer.
pub fn flb_plugin_exit<P: FLBPluginMethods>(plugin: &mut P) -> (code: i32)
    ensures
        (exists|outcome: FLBResult, asked: &mut P|
            {
                &&& *asked == *old(plugin)
                &&& *final(asked) == *final(plugin)
                &&& #[trigger] call_ensures(P::plugin_exit, (asked,), outcome)
                &&& code == outcome_code_spec(outcome)
            }),
{
    let outcome = plugin.plugin_exit();
    outcome_code(outcome)
}

/// Releases what a registration stored: the descriptor gives up both
/// strings, whose memory is reclaimed, and holds the protocol's constants
/// again.
///
/// A second release finds nothing to give up and reclaims nothing.
pub fn flb_plugin_unregister(def: &mut flb_plugin_proxy_def) -> (code: i32)
    ensures
        code == 1,
        final(def).has_protocol_constants(),
        final(def).name is None,
        final(def).description is None,
{
    def.write_protocol_constants();
    def.name = None;
    def.description = None;
    1
}

} // verus!
