//! What a plugin implements, and the handle through which it asks the host
//! for its configuration.

use vstd::prelude::*;
use crate::descriptor::PluginInfo;
use crate::host_string::{
    from_host_string, host_decoding, host_encoding, is_host_string, lemma_round_trip,
    to_host_string,
};
use crate::outcome::FLBResult;

verus! {

/// Why a configuration property could not be read.
#[derive(Debug, Clone, Copy, PartialEq, Eq, Structural)]
pub enum ConfigError {
    /// The key holds a zero byte and cannot be handed to the host.
    InvalidKey,
    /// The host answered with bytes that are no text.
    InvalidEncoding,
}

/// What a lookup yields, with each text taken as its characters.
pub open spec fn lookup_view(r: Result<Option<String>, ConfigError>) -> Result<
    Option<Seq<char>>,
    ConfigError,
> {
    match r {
        Ok(Some(value)) => Ok(Some(value@)),
        Ok(None) => Ok(None),
        Err(e) => Err(e),
    }
}

/// The host's answer to a lookup, taken as a sequence of bytes.
pub open spec fn answer_view(raw: Option<Vec<u8>>) -> Option<Seq<u8>> {
    match raw {
        Some(mem) => Some(mem@),
        None => None,
    }
}

/// What a lookup yields for an answer of the host: nothing where the host
/// has no value, the decoded text where it has one, and `InvalidEncoding`
/// where its value is no text.
pub open spec fn property_value_spec(raw: Option<Seq<u8>>) -> Result<
    Option<Seq<char>>,
    ConfigError,
> {
    match raw {
        None => Ok(None),
        Some(mem) => match host_decoding(mem) {
            Some(text) => Ok(Some(text)),
            None => Err(ConfigError::InvalidEncoding),
        },
    }
}

/// Turns the host's answer to a lookup into the value of the property.
///
/// `raw` is the host string that the host returned, or `None` where it
/// returned a null pointer. The host's memory is only read: the text that
/// comes back is a copy.
pub fn property_value(raw: Option<&[u8]>) -> (r: Result<Option<String>, ConfigError>)
    ensures
        lookup_view(r) == property_value_spec(
            match raw {
                Some(mem) => Some(mem@),
                None => None,
            },
        ),
{
    match raw {
        None => Ok(None),
        Some(mem) => match from_host_string(mem) {
            Ok(text) => Ok(Some(text)),
            Err(_) => Err(ConfigError::InvalidEncoding),
        },
    }
}

/// The host as a plugin sees it while it is initialized.
///
/// It is handed to the plugin's init, which may ask it for any parameter
/// that the plugin was configured with, and it is borrowed for that call
/// only.
///
/// It holds the host's property getter, if the host's table of functions
/// has one. The getter takes a key as a host string and returns the value
/// as a host string, or `None` where the host has no value for the key.
pub struct FLBPlugin<F: Fn(Vec<u8>) -> Option<Vec<u8>>> {
    getter: Option<F>,
}

impl<F: Fn(Vec<u8>) -> Option<Vec<u8>>> FLBPlugin<F> {
    /// The getter may be called with every key that is a host string.
    #[verifier::type_invariant]
    spec fn accepts_every_key(self) -> bool {
        self.getter matches Some(f) ==> forall|key: Vec<u8>|
            is_host_string(key@) ==> #[trigger] f.requires((key,))
    }

    /// The host's property getter, if there is one.
    pub closed spec fn host_getter(&self) -> Option<F> {
        self.getter
    }

    /// True when the host, asked for the key `key`, may answer `raw`.
    pub open spec fn answers(&self, key: Seq<u8>, raw: Option<Seq<u8>>) -> bool {
        exists|k: Vec<u8>, r: Option<Vec<u8>>|
            k@ == key && answer_view(r) == raw && #[trigger] self.host_getter().unwrap().ensures(
                (k,),
                r,
            )
    }

    /// Creates a handle over the host's property getter, or over a host
    /// that has none.
    ///
    /// The entry point that receives the host's pointer makes the handle; a
    /// plugin only ever borrows one.
    pub fn new(getter: Option<F>) -> (plugin: Self)
        requires
            getter matches Some(f) ==> forall|key: Vec<u8>|
                is_host_string(key@) ==> #[trigger] f.requires((key,)),
        ensures
            plugin.host_getter() == getter,
    {
        Self { getter }
    }

    /// Request the value of a param named *key*
    /// # Returns
    /// `InvalidKey` where the key holds a zero byte, and the host is then
    /// not asked; nothing where the host has no property getter or no value
    /// for the key; else the value that the host holds, or `InvalidEncoding`
    /// where that value is no text.
    pub fn config_param(&self, key: &str) -> (r: Result<Option<String>, ConfigError>)
        ensures
            host_encoding(key@) is None ==> lookup_view(r) == Err::<Option<Seq<char>>, ConfigError>(
                ConfigError::InvalidKey,
            ),
            host_encoding(key@) is Some && self.host_getter() is None ==> lookup_view(r) == Ok::<
                Option<Seq<char>>,
                ConfigError,
            >(None),
            host_encoding(key@) is Some && self.host_getter() is Some ==> exists|raw: Option<Seq<u8>>|
                self.answers(host_encoding(key@).unwrap(), raw)
                    && lookup_view(r) == property_value_spec(raw),
    {
        proof {
            use_type_invariant(self);
        }
        let key_mem = match to_host_string(key) {
            Ok(mem) => mem,
            Err(_) => {
                return Err(ConfigError::InvalidKey);
            },
        };
        proof {
            lemma_round_trip(key@);
        }
        match &self.getter {
            None => Ok(None),
            Some(f) => {
                let ghost key_seq = key_mem@;
                let raw = f(key_mem);
                let r = match &raw {
                    None => property_value(None),
                    Some(mem) => property_value(Some(mem.as_slice())),
                };
                proof {
                    assert(self.answers(key_seq, answer_view(raw)));
                }
                r
            },
        }
    }
}

/// Trait which defines the functions that should be implemented by any plugin
pub trait FLBPluginMethods {
    /// A plugin register method
    ///
    /// When the plugin is loaded, the host asks it for its name and
    /// description.
    /// # Arguments
    /// * `info` A mutable reference to a PluginInfo struct where the plugin's name and description will be filled
    /// # Returns
    /// If the operation was successful an Ok(()) is returned otherwise FLBError
    fn plugin_register(&mut self, info: &mut PluginInfo) -> FLBResult;

    /// Before the engine starts, it initialize all plugins that were requested to start
    /// Useful for initializing any data structure that would be used for this plugin during the processing
    /// # Arguments
    /// * `plugin` A reference to the inner plugin representation which could be used for getting
    /// any parameter passed in to the plugin
    /// # Returns
    /// If the operation was successful an Ok(()) is returned otherwise FLBError
    fn plugin_init<F: Fn(Vec<u8>) -> Option<Vec<u8>>>(
        &mut self,
        plugin: &FLBPlugin<F>,
    ) -> FLBResult;

    /// Upon flush time, when the host wants to flush its buffers, the flush callback will be triggered.
    /// The callback will receive a raw buffer of serialized records, which could be processed in any way.
    /// # Arguments
    /// * `data` A byte buffer with the records
    /// * `tag` A str containing the tag that the host gave the records
    /// # Returns
    /// If the operation was successful an Ok(()) is returned otherwise FLBError
    fn plugin_flush(&mut self, data: &[u8], tag: &str) -> FLBResult;

    /// When the host will stop using the instance of the plugin, it will trigger the exit callback.
    /// # Returns
    /// If the operation was successful an Ok(()) is returned otherwise FLBError
    fn plugin_exit(&mut self) -> FLBResult;
}

} // verus!
