//! The two value converters of the bridge.
//!
//! A value crossing the boundary is first classified, then rewritten into
//! the closed tagged union `BridgedValue`, the only shape the engine-facing
//! glue has to materialize. `to_script` converts a classified host value
//! into a bridged value (host to script direction); `to_host` converts a
//! classified script value into a host value (script to host direction).
//! Both are total: conversion itself never fails.
//!
//! Each executable type has a mathematical mirror (`HostModel`,
//! `BridgedModel`, `JsModel`) over `Seq` that the contracts speak about.

use vstd::prelude::*;
use vstd::string::StringExecFns;

use crate::exception::ThrowableInfo;
use crate::exception::ThrowableModel;

verus! {

/// The calling shapes a host callable can expose.
#[derive(Clone, Copy, Debug, PartialEq, Eq, Structural)]
pub enum CallableKind {
    /// One argument, one result.
    Unary,
    /// Two arguments, one result.
    Binary,
    /// No argument, one result.
    Supplier,
    /// Any number of arguments, one result.
    Variadic,
}

// ---------------------------------------------------------------------------
// Classification of a host value by capability.
// ---------------------------------------------------------------------------
/// The answers of the narrow capability query on one host value: which
/// behaviors the host object model reports for it. Several may hold at
/// once; `classify` decides which one wins.
#[derive(Clone, Copy, Debug, PartialEq, Eq, Structural)]
pub struct HostProbe {
    pub is_null: bool,
    pub is_bool: bool,
    pub is_int32: bool,
    pub is_int64: bool,
    pub is_float: bool,
    pub is_string: bool,
    pub is_exported_array: bool,
    pub is_exported_object: bool,
    pub is_exported_function: bool,
    pub is_sequence: bool,
    pub is_mapping: bool,
    pub is_unary_callable: bool,
    pub is_binary_callable: bool,
    pub is_supplier: bool,
    pub is_variadic_callable: bool,
    pub is_big_integer: bool,
    pub is_big_decimal: bool,
}

/// The winning capability of a host value: which extraction the glue must
/// run to build a `HostValue`.
#[derive(Clone, Copy, Debug, PartialEq, Eq, Structural)]
pub enum HostKind {
    Null,
    Bool,
    Int32,
    Int64,
    Float,
    Text,
    ExportedArray,
    ExportedObject,
    ExportedFunction,
    Sequence,
    Mapping,
    UnaryCallable,
    BinaryCallable,
    Supplier,
    VariadicCallable,
    BigInteger,
    BigDecimal,
    Fallback,
}

/// The classification order: cheaper and more common capabilities win over
/// later ones, previously exported script values are unwrapped before the
/// generic collection capabilities, and any value with no recognized
/// capability falls back to its textual representation.
pub open spec fn classify_model(p: HostProbe) -> HostKind {
    if p.is_null {
        HostKind::Null
    } else if p.is_bool {
        HostKind::Bool
    } else if p.is_int32 {
        HostKind::Int32
    } else if p.is_int64 {
        HostKind::Int64
    } else if p.is_float {
        HostKind::Float
    } else if p.is_string {
        HostKind::Text
    } else if p.is_exported_array {
        HostKind::ExportedArray
    } else if p.is_exported_object {
        HostKind::ExportedObject
    } else if p.is_exported_function {
        HostKind::ExportedFunction
    } else if p.is_sequence {
        HostKind::Sequence
    } else if p.is_mapping {
        HostKind::Mapping
    } else if p.is_unary_callable {
        HostKind::UnaryCallable
    } else if p.is_binary_callable {
        HostKind::BinaryCallable
    } else if p.is_supplier {
        HostKind::Supplier
    } else if p.is_variadic_callable {
        HostKind::VariadicCallable
    } else if p.is_big_integer {
        HostKind::BigInteger
    } else if p.is_big_decimal {
        HostKind::BigDecimal
    } else {
        HostKind::Fallback
    }
}

/// Decides which capability of a host value wins; total over all probes.
pub fn classify(p: &HostProbe) -> (k: HostKind)
    ensures
        k == classify_model(*p),
{
    if p.is_null {
        HostKind::Null
    } else if p.is_bool {
        HostKind::Bool
    } else if p.is_int32 {
        HostKind::Int32
    } else if p.is_int64 {
        HostKind::Int64
    } else if p.is_float {
        HostKind::Float
    } else if p.is_string {
        HostKind::Text
    } else if p.is_exported_array {
        HostKind::ExportedArray
    } else if p.is_exported_object {
        HostKind::ExportedObject
    } else if p.is_exported_function {
        HostKind::ExportedFunction
    } else if p.is_sequence {
        HostKind::Sequence
    } else if p.is_mapping {
        HostKind::Mapping
    } else if p.is_unary_callable {
        HostKind::UnaryCallable
    } else if p.is_binary_callable {
        HostKind::BinaryCallable
    } else if p.is_supplier {
        HostKind::Supplier
    } else if p.is_variadic_callable {
        HostKind::VariadicCallable
    } else if p.is_big_integer {
        HostKind::BigInteger
    } else if p.is_big_decimal {
        HostKind::BigDecimal
    } else {
        HostKind::Fallback
    }
}

// ---------------------------------------------------------------------------
// The three value shapes and their mathematical mirrors.
// ---------------------------------------------------------------------------
/// A host value after classification and extraction, the input of the
/// host-to-script direction. Floating-point content travels as its
/// IEEE-754 bit pattern, since the bridge never computes with it.
#[derive(Debug, PartialEq, Eq)]
pub enum HostValue {
    Null,
    Bool(bool),
    /// A 32-bit integer-like host value.
    Int(i32),
    /// A 64-bit integer-like host value; becomes a script big-integer.
    Long(i64),
    /// IEEE-754 bits of a floating-point host value.
    Double(u64),
    Str(String),
    BigInteger(i64),
    /// An arbitrary-precision decimal, carried as its textual form.
    BigDecimal(String),
    /// A host wrapper around a previously exported script array.
    JsArrayRef { value: u64, ctx: u64 },
    /// A host wrapper around a previously exported script object.
    JsObjectRef { value: u64, ctx: u64 },
    /// A host wrapper around a previously exported script function.
    JsFunctionRef { value: u64, ctx: u64, name: Option<String> },
    /// An ordered sequence capability; elements convert recursively.
    Sequence(Vec<HostValue>),
    /// A key/value mapping capability; entries convert recursively.
    Mapping(Vec<(String, HostValue)>),
    /// A host callable; `id` names the durable host reference the glue
    /// captured for calling it later on another call stack.
    Callable(CallableKind, u64),
    /// No recognized capability: the value's textual representation.
    Other(String),
}

/// Mathematical mirror of `HostValue`.
pub enum HostModel {
    Null,
    Bool(bool),
    Int(i32),
    Long(i64),
    Double(u64),
    Str(Seq<char>),
    BigInteger(i64),
    BigDecimal(Seq<char>),
    JsArrayRef { value: u64, ctx: u64 },
    JsObjectRef { value: u64, ctx: u64 },
    JsFunctionRef { value: u64, ctx: u64, name: Option<Seq<char>> },
    Sequence(Seq<HostModel>),
    Mapping(Seq<(Seq<char>, HostModel)>),
    Callable(CallableKind, u64),
    Other(Seq<char>),
}

/// The closed tagged union a value becomes while crossing the boundary.
#[derive(Debug, PartialEq, Eq)]
pub enum BridgedValue {
    Null,
    Bool(bool),
    Int(i32),
    /// IEEE-754 bits of a floating-point value.
    Double(u64),
    Str(String),
    BigInteger(i64),
    /// Becomes a script big-decimal literal when materialized.
    BigDecimal(String),
    /// A script array to build, elements already bridged.
    Array(Vec<BridgedValue>),
    /// A script object to build, entries already bridged.
    Object(Vec<(String, BridgedValue)>),
    /// The live script array behind this handle, reused as it is.
    JsArray(u64),
    /// The live script object behind this handle, reused as it is.
    JsObject(u64),
    /// The live script function behind this handle, reused as it is.
    JsFunction(u64),
    /// A host callable to wrap as a script-callable proxy.
    HostCallable(CallableKind, u64),
    /// A host exception to raise as a script exception carrying the
    /// reconstruction markers.
    Throwable(ThrowableInfo),
}

/// Mathematical mirror of `BridgedValue`.
pub enum BridgedModel {
    Null,
    Bool(bool),
    Int(i32),
    Double(u64),
    Str(Seq<char>),
    BigInteger(i64),
    BigDecimal(Seq<char>),
    Array(Seq<BridgedModel>),
    Object(Seq<(Seq<char>, BridgedModel)>),
    JsArray(u64),
    JsObject(u64),
    JsFunction(u64),
    HostCallable(CallableKind, u64),
    Throwable(ThrowableModel),
}

/// A script value after classification by kind, the input of the
/// script-to-host direction. Arrays, objects and functions that are
/// exposed live to the host appear as handles; arrays and objects that
/// are copied eagerly appear with their contents read out.
#[derive(Debug, PartialEq, Eq)]
pub enum JsValue {
    Null,
    Undefined,
    Bool(bool),
    Int(i32),
    /// IEEE-754 bits of a script floating-point number.
    Float(u64),
    Str(String),
    /// A script big-integer in 64-bit range.
    BigInt(i64),
    /// A live script array, kept alive behind this handle.
    Array(u64),
    /// A live script object, kept alive behind this handle.
    Object(u64),
    /// A live script function and its name, if it has one.
    Function { value: u64, name: Option<String> },
    /// A script array copied out eagerly, elements already classified.
    ArrayCopy(Vec<JsValue>),
    /// A script object copied out eagerly, entries already classified.
    ObjectCopy(Vec<(String, JsValue)>),
}

/// Mathematical mirror of `JsValue`.
pub enum JsModel {
    Null,
    Undefined,
    Bool(bool),
    Int(i32),
    Float(u64),
    Str(Seq<char>),
    BigInt(i64),
    Array(u64),
    Object(u64),
    Function { value: u64, name: Option<Seq<char>> },
    ArrayCopy(Seq<JsModel>),
    ObjectCopy(Seq<(Seq<char>, JsModel)>),
}

pub open spec fn opt_text_model(s: Option<String>) -> Option<Seq<char>> {
    match s {
        Some(s) => Some(s@),
        None => None,
    }
}

// ---------------------------------------------------------------------------
// Views: from the executable types to their mirrors.
// ---------------------------------------------------------------------------
pub open spec fn host_model(h: HostValue) -> HostModel
    decreases h,
{
    match h {
        HostValue::Null => HostModel::Null,
        HostValue::Bool(b) => HostModel::Bool(b),
        HostValue::Int(v) => HostModel::Int(v),
        HostValue::Long(v) => HostModel::Long(v),
        HostValue::Double(bits) => HostModel::Double(bits),
        HostValue::Str(s) => HostModel::Str(s@),
        HostValue::BigInteger(v) => HostModel::BigInteger(v),
        HostValue::BigDecimal(s) => HostModel::BigDecimal(s@),
        HostValue::JsArrayRef { value, ctx } => HostModel::JsArrayRef { value, ctx },
        HostValue::JsObjectRef { value, ctx } => HostModel::JsObjectRef { value, ctx },
        HostValue::JsFunctionRef { value, ctx, name } => HostModel::JsFunctionRef {
            value,
            ctx,
            name: opt_text_model(name),
        },
        HostValue::Sequence(items) => HostModel::Sequence(host_model_seq(items@)),
        HostValue::Mapping(entries) => HostModel::Mapping(host_model_entries(entries@)),
        HostValue::Callable(k, id) => HostModel::Callable(k, id),
        HostValue::Other(s) => HostModel::Other(s@),
    }
}

pub open spec fn host_model_seq(s: Seq<HostValue>) -> Seq<HostModel>
    decreases s,
{
    if s.len() == 0 {
        Seq::empty()
    } else {
        host_model_seq(s.drop_last()).push(host_model(s.last()))
    }
}

pub open spec fn host_model_entries(s: Seq<(String, HostValue)>) -> Seq<(Seq<char>, HostModel)>
    decreases s,
{
    if s.len() == 0 {
        Seq::empty()
    } else {
        host_model_entries(s.drop_last()).push((s.last().0@, host_model(s.last().1)))
    }
}

pub proof fn lemma_host_model_seq(s: Seq<HostValue>)
    ensures
        host_model_seq(s).len() == s.len(),
        forall|i: int| 0 <= i < s.len() ==> host_model_seq(s)[i] == host_model(s[i]),
    decreases s.len(),
{
    if s.len() > 0 {
        lemma_host_model_seq(s.drop_last());
    }
}

pub proof fn lemma_host_model_entries(s: Seq<(String, HostValue)>)
    ensures
        host_model_entries(s).len() == s.len(),
        forall|i: int| 0 <= i < s.len() ==> host_model_entries(s)[i] == (
            s[i].0@,
            host_model(s[i].1),
        ),
    decreases s.len(),
{
    if s.len() > 0 {
        lemma_host_model_entries(s.drop_last());
    }
}

impl View for HostValue {
    type V = HostModel;

    open spec fn view(&self) -> HostModel {
        host_model(*self)
    }
}

pub open spec fn bridged_model(b: BridgedValue) -> BridgedModel
    decreases b,
{
    match b {
        BridgedValue::Null => BridgedModel::Null,
        BridgedValue::Bool(v) => BridgedModel::Bool(v),
        BridgedValue::Int(v) => BridgedModel::Int(v),
        BridgedValue::Double(bits) => BridgedModel::Double(bits),
        BridgedValue::Str(s) => BridgedModel::Str(s@),
        BridgedValue::BigInteger(v) => BridgedModel::BigInteger(v),
        BridgedValue::BigDecimal(s) => BridgedModel::BigDecimal(s@),
        BridgedValue::Array(items) => BridgedModel::Array(bridged_model_seq(items@)),
        BridgedValue::Object(entries) => BridgedModel::Object(bridged_model_entries(entries@)),
        BridgedValue::JsArray(h) => BridgedModel::JsArray(h),
        BridgedValue::JsObject(h) => BridgedModel::JsObject(h),
        BridgedValue::JsFunction(h) => BridgedModel::JsFunction(h),
        BridgedValue::HostCallable(k, id) => BridgedModel::HostCallable(k, id),
        BridgedValue::Throwable(t) => BridgedModel::Throwable(t@),
    }
}

pub open spec fn bridged_model_seq(s: Seq<BridgedValue>) -> Seq<BridgedModel>
    decreases s,
{
    if s.len() == 0 {
        Seq::empty()
    } else {
        bridged_model_seq(s.drop_last()).push(bridged_model(s.last()))
    }
}

pub open spec fn bridged_model_entries(s: Seq<(String, BridgedValue)>) -> Seq<
    (Seq<char>, BridgedModel),
>
    decreases s,
{
    if s.len() == 0 {
        Seq::empty()
    } else {
        bridged_model_entries(s.drop_last()).push((s.last().0@, bridged_model(s.last().1)))
    }
}

pub proof fn lemma_bridged_model_seq(s: Seq<BridgedValue>)
    ensures
        bridged_model_seq(s).len() == s.len(),
        forall|i: int| 0 <= i < s.len() ==> bridged_model_seq(s)[i] == bridged_model(s[i]),
    decreases s.len(),
{
    if s.len() > 0 {
        lemma_bridged_model_seq(s.drop_last());
    }
}

pub proof fn lemma_bridged_model_entries(s: Seq<(String, BridgedValue)>)
    ensures
        bridged_model_entries(s).len() == s.len(),
        forall|i: int| 0 <= i < s.len() ==> bridged_model_entries(s)[i] == (
            s[i].0@,
            bridged_model(s[i].1),
        ),
    decreases s.len(),
{
    if s.len() > 0 {
        lemma_bridged_model_entries(s.drop_last());
    }
}

impl View for BridgedValue {
    type V = BridgedModel;

    open spec fn view(&self) -> BridgedModel {
        bridged_model(*self)
    }
}

pub open spec fn js_model(v: JsValue) -> JsModel
    decreases v,
{
    match v {
        JsValue::Null => JsModel::Null,
        JsValue::Undefined => JsModel::Undefined,
        JsValue::Bool(b) => JsModel::Bool(b),
        JsValue::Int(n) => JsModel::Int(n),
        JsValue::Float(bits) => JsModel::Float(bits),
        JsValue::Str(s) => JsModel::Str(s@),
        JsValue::BigInt(n) => JsModel::BigInt(n),
        JsValue::Array(h) => JsModel::Array(h),
        JsValue::Object(h) => JsModel::Object(h),
        JsValue::Function { value, name } => JsModel::Function {
            value,
            name: opt_text_model(name),
        },
        JsValue::ArrayCopy(items) => JsModel::ArrayCopy(js_model_seq(items@)),
        JsValue::ObjectCopy(entries) => JsModel::ObjectCopy(js_model_entries(entries@)),
    }
}

pub open spec fn js_model_seq(s: Seq<JsValue>) -> Seq<JsModel>
    decreases s,
{
    if s.len() == 0 {
        Seq::empty()
    } else {
        js_model_seq(s.drop_last()).push(js_model(s.last()))
    }
}

pub open spec fn js_model_entries(s: Seq<(String, JsValue)>) -> Seq<(Seq<char>, JsModel)>
    decreases s,
{
    if s.len() == 0 {
        Seq::empty()
    } else {
        js_model_entries(s.drop_last()).push((s.last().0@, js_model(s.last().1)))
    }
}

pub proof fn lemma_js_model_seq(s: Seq<JsValue>)
    ensures
        js_model_seq(s).len() == s.len(),
        forall|i: int| 0 <= i < s.len() ==> js_model_seq(s)[i] == js_model(s[i]),
    decreases s.len(),
{
    if s.len() > 0 {
        lemma_js_model_seq(s.drop_last());
    }
}

pub proof fn lemma_js_model_entries(s: Seq<(String, JsValue)>)
    ensures
        js_model_entries(s).len() == s.len(),
        forall|i: int| 0 <= i < s.len() ==> js_model_entries(s)[i] == (s[i].0@, js_model(s[i].1)),
    decreases s.len(),
{
    if s.len() > 0 {
        lemma_js_model_entries(s.drop_last());
    }
}

impl View for JsValue {
    type V = JsModel;

    open spec fn view(&self) -> JsModel {
        js_model(*self)
    }
}

// ---------------------------------------------------------------------------
// Host to script.
// ---------------------------------------------------------------------------
/// What `to_script` returns, on the mirrors: the type-directed rewrite of
/// a classified host value into the bridged union. 32-bit integers stay
/// integers, every 64-bit integer becomes a big-integer (never a lossy
/// double), previously exported script values unwrap back to their live
/// handles, collections convert element-wise, and the fallback is the
/// value's textual representation as a string.
pub open spec fn to_script_model(h: HostModel) -> BridgedModel
    decreases h,
{
    match h {
        HostModel::Null => BridgedModel::Null,
        HostModel::Bool(b) => BridgedModel::Bool(b),
        HostModel::Int(v) => BridgedModel::Int(v),
        HostModel::Long(v) => BridgedModel::BigInteger(v),
        HostModel::Double(bits) => BridgedModel::Double(bits),
        HostModel::Str(s) => BridgedModel::Str(s),
        HostModel::BigInteger(v) => BridgedModel::BigInteger(v),
        HostModel::BigDecimal(s) => BridgedModel::BigDecimal(s),
        HostModel::JsArrayRef { value, ctx } => BridgedModel::JsArray(value),
        HostModel::JsObjectRef { value, ctx } => BridgedModel::JsObject(value),
        HostModel::JsFunctionRef { value, ctx, name } => BridgedModel::JsFunction(value),
        HostModel::Sequence(items) => BridgedModel::Array(to_script_model_seq(items)),
        HostModel::Mapping(entries) => BridgedModel::Object(to_script_model_entries(entries)),
        HostModel::Callable(k, id) => BridgedModel::HostCallable(k, id),
        HostModel::Other(s) => BridgedModel::Str(s),
    }
}

pub open spec fn to_script_model_seq(s: Seq<HostModel>) -> Seq<BridgedModel>
    decreases s,
{
    if s.len() == 0 {
        Seq::empty()
    } else {
        to_script_model_seq(s.drop_last()).push(to_script_model(s.last()))
    }
}

pub open spec fn to_script_model_entries(s: Seq<(Seq<char>, HostModel)>) -> Seq<
    (Seq<char>, BridgedModel),
>
    decreases s,
{
    if s.len() == 0 {
        Seq::empty()
    } else {
        to_script_model_entries(s.drop_last()).push((s.last().0, to_script_model(s.last().1)))
    }
}

pub proof fn lemma_to_script_model_seq(s: Seq<HostModel>)
    ensures
        to_script_model_seq(s).len() == s.len(),
        forall|i: int| 0 <= i < s.len() ==> to_script_model_seq(s)[i] == to_script_model(s[i]),
    decreases s.len(),
{
    if s.len() > 0 {
        lemma_to_script_model_seq(s.drop_last());
    }
}

pub proof fn lemma_to_script_model_entries(s: Seq<(Seq<char>, HostModel)>)
    ensures
        to_script_model_entries(s).len() == s.len(),
        forall|i: int| 0 <= i < s.len() ==> to_script_model_entries(s)[i] == (
            s[i].0,
            to_script_model(s[i].1),
        ),
    decreases s.len(),
{
    if s.len() > 0 {
        lemma_to_script_model_entries(s.drop_last());
    }
}

/// Converts a classified host value into a bridged value; total, never
/// fails, and recursive over sequence and mapping contents.
pub fn to_script(h: &HostValue) -> (b: BridgedValue)
    ensures
        b@ == to_script_model(h@),
    decreases *h,
{
    match h {
        HostValue::Null => BridgedValue::Null,
        HostValue::Bool(b) => BridgedValue::Bool(*b),
        HostValue::Int(v) => BridgedValue::Int(*v),
        HostValue::Long(v) => BridgedValue::BigInteger(*v),
        HostValue::Double(bits) => BridgedValue::Double(*bits),
        HostValue::Str(s) => BridgedValue::Str(s.clone()),
        HostValue::BigInteger(v) => BridgedValue::BigInteger(*v),
        HostValue::BigDecimal(s) => BridgedValue::BigDecimal(s.clone()),
        HostValue::JsArrayRef { value, ctx } => BridgedValue::JsArray(*value),
        HostValue::JsObjectRef { value, ctx } => BridgedValue::JsObject(*value),
        HostValue::JsFunctionRef { value, ctx, name } => BridgedValue::JsFunction(*value),
        HostValue::Sequence(items) => {
            let mut out: Vec<BridgedValue> = Vec::new();
            let n = items.len();
            let mut i: usize = 0;
            while i < n
                invariant
                    *h == HostValue::Sequence(*items),
                    n == items@.len(),
                    i <= n,
                    out@.len() == i,
                    forall|j: int| 0 <= j < i ==> bridged_model(#[trigger] out@[j])
                        == to_script_model(host_model(items@[j])),
                decreases n - i,
            {
                proof {
                    assert(decreases_to!(*h => h->Sequence_0));
                    assert(h->Sequence_0 == *items);
                    assert(decreases_to!(*h => *items));
                    assert(decreases_to!(*items => items@));
                    assert(decreases_to!(items@ => items@[i as int]));
                    assert(decreases_to!(*h => items@[i as int]));
                }
                let b = to_script(&items[i]);
                out.push(b);
                i += 1;
            }
            let r = BridgedValue::Array(out);
            proof {
                lemma_bridged_model_seq(r->Array_0@);
                lemma_host_model_seq(items@);
                lemma_to_script_model_seq(host_model_seq(items@));
                assert(bridged_model_seq(r->Array_0@) =~= to_script_model_seq(
                    host_model_seq(items@),
                ));
            }
            r
        },
        HostValue::Mapping(entries) => {
            let mut out: Vec<(String, BridgedValue)> = Vec::new();
            let n = entries.len();
            let mut i: usize = 0;
            while i < n
                invariant
                    *h == HostValue::Mapping(*entries),
                    n == entries@.len(),
                    i <= n,
                    out@.len() == i,
                    forall|j: int| 0 <= j < i ==> (#[trigger] out@[j]).0@ == entries@[j].0@
                        && bridged_model(out@[j].1) == to_script_model(host_model(entries@[j].1)),
                decreases n - i,
            {
                proof {
                    assert(decreases_to!(*h => h->Mapping_0));
                    assert(h->Mapping_0 == *entries);
                    assert(decreases_to!(*h => *entries));
                    assert(decreases_to!(*entries => entries@));
                    assert(decreases_to!(entries@ => entries@[i as int]));
                    assert(decreases_to!(entries@[i as int] => entries@[i as int].1));
                    assert(decreases_to!(*h => entries@[i as int].1));
                }
                let key = entries[i].0.clone();
                let b = to_script(&entries[i].1);
                out.push((key, b));
                i += 1;
            }
            let r = BridgedValue::Object(out);
            proof {
                lemma_bridged_model_entries(r->Object_0@);
                lemma_host_model_entries(entries@);
                lemma_to_script_model_entries(host_model_entries(entries@));
                assert(bridged_model_entries(r->Object_0@) =~= to_script_model_entries(
                    host_model_entries(entries@),
                ));
            }
            r
        },
        HostValue::Callable(k, id) => BridgedValue::HostCallable(*k, *id),
        HostValue::Other(s) => BridgedValue::Str(s.clone()),
    }
}

// ---------------------------------------------------------------------------
// Script to host.
// ---------------------------------------------------------------------------
/// What `to_host` returns, on the mirrors: null and undefined both become
/// host null, primitives become the corresponding host primitives, a
/// script big-integer becomes a 64-bit host integer, live arrays, objects
/// and functions become handle-backed host wrappers carrying the owning
/// context handle, and eagerly copied arrays and objects convert
/// entry-wise.
pub open spec fn to_host_model(v: JsModel, ctx: u64) -> HostModel
    decreases v,
{
    match v {
        JsModel::Null => HostModel::Null,
        JsModel::Undefined => HostModel::Null,
        JsModel::Bool(b) => HostModel::Bool(b),
        JsModel::Int(n) => HostModel::Int(n),
        JsModel::Float(bits) => HostModel::Double(bits),
        JsModel::Str(s) => HostModel::Str(s),
        JsModel::BigInt(n) => HostModel::Long(n),
        JsModel::Array(h) => HostModel::JsArrayRef { value: h, ctx },
        JsModel::Object(h) => HostModel::JsObjectRef { value: h, ctx },
        JsModel::Function { value, name } => HostModel::JsFunctionRef { value, ctx, name },
        JsModel::ArrayCopy(items) => HostModel::Sequence(to_host_model_seq(items, ctx)),
        JsModel::ObjectCopy(entries) => HostModel::Mapping(to_host_model_entries(entries, ctx)),
    }
}

pub open spec fn to_host_model_seq(s: Seq<JsModel>, ctx: u64) -> Seq<HostModel>
    decreases s,
{
    if s.len() == 0 {
        Seq::empty()
    } else {
        to_host_model_seq(s.drop_last(), ctx).push(to_host_model(s.last(), ctx))
    }
}

pub open spec fn to_host_model_entries(s: Seq<(Seq<char>, JsModel)>, ctx: u64) -> Seq<
    (Seq<char>, HostModel),
>
    decreases s,
{
    if s.len() == 0 {
        Seq::empty()
    } else {
        to_host_model_entries(s.drop_last(), ctx).push((s.last().0, to_host_model(s.last().1, ctx)))
    }
}

pub proof fn lemma_to_host_model_seq(s: Seq<JsModel>, ctx: u64)
    ensures
        to_host_model_seq(s, ctx).len() == s.len(),
        forall|i: int| 0 <= i < s.len() ==> to_host_model_seq(s, ctx)[i] == to_host_model(
            s[i],
            ctx,
        ),
    decreases s.len(),
{
    if s.len() > 0 {
        lemma_to_host_model_seq(s.drop_last(), ctx);
    }
}

pub proof fn lemma_to_host_model_entries(s: Seq<(Seq<char>, JsModel)>, ctx: u64)
    ensures
        to_host_model_entries(s, ctx).len() == s.len(),
        forall|i: int| 0 <= i < s.len() ==> to_host_model_entries(s, ctx)[i] == (
            s[i].0,
            to_host_model(s[i].1, ctx),
        ),
    decreases s.len(),
{
    if s.len() > 0 {
        lemma_to_host_model_entries(s.drop_last(), ctx);
    }
}

/// Converts a classified script value into a host value; total over all
/// script value kinds. `ctx` is the handle of the owning context, which
/// every handle-backed wrapper must carry to reach the live value later.
pub fn to_host(v: &JsValue, ctx: u64) -> (h: HostValue)
    ensures
        h@ == to_host_model(v@, ctx),
    decreases *v,
{
    match v {
        JsValue::Null => HostValue::Null,
        JsValue::Undefined => HostValue::Null,
        JsValue::Bool(b) => HostValue::Bool(*b),
        JsValue::Int(n) => HostValue::Int(*n),
        JsValue::Float(bits) => HostValue::Double(*bits),
        JsValue::Str(s) => HostValue::Str(s.clone()),
        JsValue::BigInt(n) => HostValue::Long(*n),
        JsValue::Array(h) => HostValue::JsArrayRef { value: *h, ctx },
        JsValue::Object(h) => HostValue::JsObjectRef { value: *h, ctx },
        JsValue::Function { value, name } => HostValue::JsFunctionRef {
            value: *value,
            ctx,
            name: match name {
                Some(s) => Some(s.clone()),
                None => None,
            },
        },
        JsValue::ArrayCopy(items) => {
            let mut out: Vec<HostValue> = Vec::new();
            let n = items.len();
            let mut i: usize = 0;
            while i < n
                invariant
                    *v == JsValue::ArrayCopy(*items),
                    n == items@.len(),
                    i <= n,
                    out@.len() == i,
                    forall|j: int| 0 <= j < i ==> host_model(#[trigger] out@[j]) == to_host_model(
                        js_model(items@[j]),
                        ctx,
                    ),
                decreases n - i,
            {
                proof {
                    assert(decreases_to!(*v => v->ArrayCopy_0));
                    assert(v->ArrayCopy_0 == *items);
                    assert(decreases_to!(*v => *items));
                    assert(decreases_to!(*items => items@));
                    assert(decreases_to!(items@ => items@[i as int]));
                    assert(decreases_to!(*v => items@[i as int]));
                }
                let h = to_host(&items[i], ctx);
                out.push(h);
                i += 1;
            }
            let r = HostValue::Sequence(out);
            proof {
                lemma_host_model_seq(r->Sequence_0@);
                lemma_js_model_seq(items@);
                lemma_to_host_model_seq(js_model_seq(items@), ctx);
                assert(host_model_seq(r->Sequence_0@) =~= to_host_model_seq(
                    js_model_seq(items@),
                    ctx,
                ));
            }
            r
        },
        JsValue::ObjectCopy(entries) => {
            let mut out: Vec<(String, HostValue)> = Vec::new();
            let n = entries.len();
            let mut i: usize = 0;
            while i < n
                invariant
                    *v == JsValue::ObjectCopy(*entries),
                    n == entries@.len(),
                    i <= n,
                    out@.len() == i,
                    forall|j: int| 0 <= j < i ==> (#[trigger] out@[j]).0@ == entries@[j].0@
                        && host_model(out@[j].1) == to_host_model(js_model(entries@[j].1), ctx),
                decreases n - i,
            {
                proof {
                    assert(decreases_to!(*v => v->ObjectCopy_0));
                    assert(v->ObjectCopy_0 == *entries);
                    assert(decreases_to!(*v => *entries));
                    assert(decreases_to!(*entries => entries@));
                    assert(decreases_to!(entries@ => entries@[i as int]));
                    assert(decreases_to!(entries@[i as int] => entries@[i as int].1));
                    assert(decreases_to!(*v => entries@[i as int].1));
                }
                let key = entries[i].0.clone();
                let h = to_host(&entries[i].1, ctx);
                out.push((key, h));
                i += 1;
            }
            let r = HostValue::Mapping(out);
            proof {
                lemma_host_model_entries(r->Mapping_0@);
                lemma_js_model_entries(entries@);
                lemma_to_host_model_entries(js_model_entries(entries@), ctx);
                assert(host_model_entries(r->Mapping_0@) =~= to_host_model_entries(
                    js_model_entries(entries@),
                    ctx,
                ));
            }
            r
        },
    }
}

/// The script source whose evaluation materializes a big-decimal: the
/// decimal's textual form followed by the big-decimal literal suffix.
/// The engine has no direct constructor for these values, so the glue
/// evaluates this one-literal script instead.
pub fn big_decimal_literal(digits: &str) -> (src: String)
    ensures
        src@ == digits@ + "m"@,
{
    let mut src = digits.to_owned();
    src.append("m");
    src
}

// ---------------------------------------------------------------------------
// Laws of the two converters.
// ---------------------------------------------------------------------------
/// How the engine materializes a primitive bridged value as a script
/// value: null, booleans, 32-bit integers, floating-point bit patterns,
/// strings and big-integers map to the script value of the same content.
/// Other bridged values allocate engine objects and have no image that is
/// a function of the bridged value alone.
pub open spec fn primitive_image(b: BridgedModel) -> Option<JsModel> {
    match b {
        BridgedModel::Null => Some(JsModel::Null),
        BridgedModel::Bool(v) => Some(JsModel::Bool(v)),
        BridgedModel::Int(v) => Some(JsModel::Int(v)),
        BridgedModel::Double(bits) => Some(JsModel::Float(bits)),
        BridgedModel::Str(s) => Some(JsModel::Str(s)),
        BridgedModel::BigInteger(v) => Some(JsModel::BigInt(v)),
        _ => None,
    }
}

/// Round trip of every primitive kind: a host null, boolean, 32-bit
/// integer, 64-bit integer (via a script big-integer), floating-point bit
/// pattern or string, sent into script and read back, is the same host
/// value.
pub proof fn lemma_primitive_round_trip(x: HostModel, ctx: u64)
    requires
        x is Null || x is Bool || x is Int || x is Long || x is Double || x is Str,
    ensures
        primitive_image(to_script_model(x)) is Some,
        to_host_model(primitive_image(to_script_model(x))->0, ctx) == x,
{
}

/// Identity preservation: a script array, object or function exported to
/// the host and passed back unmodified yields the live script value
/// behind the very same handle, not a structural copy.
pub proof fn lemma_export_reimport_identity(v: JsModel, ctx: u64)
    requires
        v is Array || v is Object || v matches JsModel::Function { .. },
    ensures
        v matches JsModel::Array(h) ==> to_script_model(to_host_model(v, ctx))
            == BridgedModel::JsArray(h),
        v matches JsModel::Object(h) ==> to_script_model(to_host_model(v, ctx))
            == BridgedModel::JsObject(h),
        v matches JsModel::Function { value, name } ==> to_script_model(to_host_model(v, ctx))
            == BridgedModel::JsFunction(value),
{
}

/// Numeric edge case: every 64-bit integer-like host value becomes a
/// script big-integer carrying the exact value, never a lossy double —
/// also outside the 32-bit and the 2^53 range.
pub proof fn lemma_long_is_big_integer(v: i64)
    ensures
        to_script_model(HostModel::Long(v)) == BridgedModel::BigInteger(v),
        !(to_script_model(HostModel::Long(v)) is Double),
{
}

} // verus!
