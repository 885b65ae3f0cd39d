//! Listening to the properties of a metadata object.
//!
//! A listener is put together by a builder: callbacks are added one by one,
//! and `register` fixes which events the native side is to deliver. When an
//! event comes in, the listener runs the callback that was given for it.

use crate::proxy::Proxy;
use vstd::prelude::*;

verus! {

/// The version of the event table that a listener hands to the native side.
pub const VERSION_METADATA_EVENTS: u32 = 0;

/// A callback for property changes. It is given the subject, the key, the
/// type and the value; a missing value means that the property was removed,
/// a missing key that all properties of the subject were.
pub trait PropertyCallback {
    /// Whether the callback may be called with these arguments.
    spec fn accepts(
        &self,
        subject: u32,
        key: Option<&str>,
        type_: Option<&str>,
        value: Option<&str>,
    ) -> bool;

    /// Whether `res` is a result of the callback for these arguments.
    spec fn yields(
        &self,
        subject: u32,
        key: Option<&str>,
        type_: Option<&str>,
        value: Option<&str>,
        res: i32,
    ) -> bool;

    /// Runs the callback.
    fn call(&self, subject: u32, key: Option<&str>, type_: Option<&str>, value: Option<&str>) -> (res:
        i32)
        requires
            self.accepts(subject, key, type_, value),
        ensures
            self.yields(subject, key, type_, value, res),
    ;
}

impl<F: Fn(u32, Option<&str>, Option<&str>, Option<&str>) -> i32> PropertyCallback for F {
    open spec fn accepts(
        &self,
        subject: u32,
        key: Option<&str>,
        type_: Option<&str>,
        value: Option<&str>,
    ) -> bool {
        call_requires(*self, (subject, key, type_, value))
    }

    open spec fn yields(
        &self,
        subject: u32,
        key: Option<&str>,
        type_: Option<&str>,
        value: Option<&str>,
        res: i32,
    ) -> bool {
        call_ensures(*self, (subject, key, type_, value), res)
    }

    fn call(&self, subject: u32, key: Option<&str>, type_: Option<&str>, value: Option<&str>) -> (res:
        i32) {
        self(subject, key, type_, value)
    }
}

/// A metadata object, reached through its proxy.
#[derive(Debug)]
pub struct Metadata {
    proxy: Proxy,
}

impl Metadata {
    /// The proxy behind the object.
    pub closed spec fn proxy(&self) -> Proxy {
        self.proxy
    }

    /// Takes `proxy` for a metadata object, without looking at its type.
    pub fn from_proxy_unchecked(proxy: Proxy) -> (metadata: Metadata)
        ensures
            metadata.proxy() == proxy,
    {
        Metadata { proxy }
    }

    /// Gives up the object for its proxy.
    pub fn upcast(self) -> (proxy: Proxy)
        ensures
            proxy == self.proxy(),
    {
        self.proxy
    }

    /// The proxy behind the object.
    pub fn upcast_ref(&self) -> (proxy: &Proxy)
        ensures
            *proxy == self.proxy(),
    {
        &self.proxy
    }

    /// Starts a listener for this object. The builder holds no callback yet.
    pub fn add_listener_local(&self) -> (builder: MetadataListenerLocalBuilder<'_>)
        ensures
            builder.metadata() == *self,
            !builder.has_property(),
    {
        MetadataListenerLocalBuilder { metadata: self, cbs: ListenerLocalCallbacks { property: None } }
    }
}

/// The callbacks of one listener.
struct ListenerLocalCallbacks {
    property: Option<Box<dyn PropertyCallback>>,
}

/// The events that a listener asks the native side to deliver.
#[derive(Clone, Copy, Debug, PartialEq, Eq, Structural)]
pub struct MetadataEvents {
    /// The version of the table.
    pub version: u32,
    /// Whether property changes are delivered.
    pub property: bool,
}

/// Collects the callbacks of a listener before it is registered.
#[must_use]
pub struct MetadataListenerLocalBuilder<'meta> {
    metadata: &'meta Metadata,
    cbs: ListenerLocalCallbacks,
}

impl<'meta> MetadataListenerLocalBuilder<'meta> {
    /// The object that will be listened to.
    pub closed spec fn metadata(&self) -> Metadata {
        *self.metadata
    }

    /// Whether a callback for property changes was given.
    pub closed spec fn has_property(&self) -> bool {
        self.cbs.property is Some
    }

    /// Whether the property callback may be called with these arguments.
    pub closed spec fn accepts(
        &self,
        subject: u32,
        key: Option<&str>,
        type_: Option<&str>,
        value: Option<&str>,
    ) -> bool {
        self.cbs.property is Some && self.cbs.property.unwrap().accepts(subject, key, type_, value)
    }

    /// Whether `res` is a result of the property callback for these
    /// arguments.
    pub closed spec fn yields(
        &self,
        subject: u32,
        key: Option<&str>,
        type_: Option<&str>,
        value: Option<&str>,
        res: i32,
    ) -> bool {
        self.cbs.property is Some && self.cbs.property.unwrap().yields(
            subject,
            key,
            type_,
            value,
            res,
        )
    }

    /// Sets the callback for property changes, in place of an earlier one.
    pub fn property<F>(self, property: F) -> (builder: Self) where
        F: Fn(u32, Option<&str>, Option<&str>, Option<&str>) -> i32 + 'static,

        ensures
            builder.metadata() == self.metadata(),
            builder.has_property(),
            forall|subject: u32, key: Option<&str>, type_: Option<&str>, value: Option<&str>|
                builder.accepts(subject, key, type_, value) == call_requires(
                    property,
                    (subject, key, type_, value),
                ),
            forall|
                subject: u32,
                key: Option<&str>,
                type_: Option<&str>,
                value: Option<&str>,
                res: i32,
            |
                builder.yields(subject, key, type_, value, res) == call_ensures(
                    property,
                    (subject, key, type_, value),
                    res,
                ),
    {
        let boxed: Box<dyn PropertyCallback> = Box::new(property);
        MetadataListenerLocalBuilder {
            metadata: self.metadata,
            cbs: ListenerLocalCallbacks { property: Some(boxed) },
        }
    }

    /// Ends the building: the listener asks for property changes exactly
    /// when a callback was given for them, and it runs that callback.
    #[must_use]
    pub fn register(self) -> (listener: MetadataListener)
        ensures
            listener.events() == (MetadataEvents {
                version: VERSION_METADATA_EVENTS,
                property: self.has_property(),
            }),
            forall|subject: u32, key: Option<&str>, type_: Option<&str>, value: Option<&str>|
                listener.accepts(subject, key, type_, value) == self.accepts(
                    subject,
                    key,
                    type_,
                    value,
                ),
            forall|
                subject: u32,
                key: Option<&str>,
                type_: Option<&str>,
                value: Option<&str>,
                res: i32,
            |
                listener.yields(subject, key, type_, value, res) == self.yields(
                    subject,
                    key,
                    type_,
                    value,
                    res,
                ),
    {
        let events = MetadataEvents {
            version: VERSION_METADATA_EVENTS,
            property: self.cbs.property.is_some(),
        };
        MetadataListener { events, data: self.cbs }
    }
}

/// A registered listener. It keeps its callbacks for as long as the native
/// side may deliver events.
pub struct MetadataListener {
    events: MetadataEvents,
    data: ListenerLocalCallbacks,
}

impl MetadataListener {
    /// The events that the native side is to deliver.
    pub closed spec fn events(&self) -> MetadataEvents {
        self.events
    }

    /// Whether the property callback may be called with these arguments.
    pub closed spec fn accepts(
        &self,
        subject: u32,
        key: Option<&str>,
        type_: Option<&str>,
        value: Option<&str>,
    ) -> bool {
        self.data.property is Some && self.data.property.unwrap().accepts(
            subject,
            key,
            type_,
            value,
        )
    }

    /// Whether `res` is a result of the property callback for these
    /// arguments.
    pub closed spec fn yields(
        &self,
        subject: u32,
        key: Option<&str>,
        type_: Option<&str>,
        value: Option<&str>,
        res: i32,
    ) -> bool {
        self.data.property is Some && self.data.property.unwrap().yields(
            subject,
            key,
            type_,
            value,
            res,
        )
    }

    /// The events that the native side is to deliver.
    pub fn event_table(&self) -> (events: MetadataEvents)
        ensures
            events == self.events(),
    {
        self.events
    }

    /// Delivers a property change: runs the callback with the arguments as
    /// they came and returns what it returns.
    pub fn on_property(
        &self,
        subject: u32,
        key: Option<&str>,
        type_: Option<&str>,
        value: Option<&str>,
    ) -> (res: i32)
        requires
            self.accepts(subject, key, type_, value),
        ensures
            self.yields(subject, key, type_, value, res),
    {
        match &self.data.property {
            Some(callback) => callback.call(subject, key, type_, value),
            None => 0,
        }
    }
}

} // verus!
