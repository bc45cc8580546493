//! The translation of intermediate bytecode into a Metal shader module.
//!
//! The translation is a sequence of native calls: a translator context is
//! created and linked against the bytecode, the native binary and the
//! reflection are read out of the linked result, every intermediate object
//! is released, and the binary is made into a library with its entry
//! function. The calls are made by the caller. What is called next, and what
//! follows from each answer, is decided here: [`ShaderTranslation::next_call`]
//! names the call, [`ShaderTranslation::advance`] takes its answer.

use crate::backend::metal::device::MetalDevice;
use crate::backend::metal::shader_module::{
    distinct_bindings, has_distinct_bindings, MetalShaderModule, ResourceLocation,
};
use crate::shader_module::{ShaderDesc, ShaderKind, ShaderModule};
use crate::text::{first_nul, nul_position};
use crate::Error;
use std::sync::Arc;
use vstd::prelude::*;
use vstd::string::to_string_from_display_ensures;

verus! {

/// A native object that lives during a translation.
#[derive(Copy, Clone, Debug, PartialEq, Eq, Hash, Structural)]
pub enum NativeObject {
    /// The translator context.
    Compiler,
    /// The intermediate bytecode, wrapped in place.
    Input,
    /// The result of compiling and linking.
    Linked,
    /// The error that compiling and linking left behind.
    LinkError,
    /// The container of the native binary.
    Binary,
    /// The reflection of the linked result.
    Reflection,
    /// The native library made from the binary.
    Library,
}

/// Where a translation stands: what it does next.
#[derive(Copy, Clone, Debug, PartialEq, Eq, Hash, Structural)]
pub enum TranslationStep {
    /// The translator context is created.
    CreateCompiler,
    /// The entry point is bound to the context.
    SetEntryPoint,
    /// The intermediate bytecode is wrapped as the input object.
    CreateInput,
    /// The input is compiled and linked.
    CompileAndLink,
    /// The container for the native binary is created.
    CreateBinary,
    /// The native binary of the stage is read out of the linked result.
    ExtractBinary,
    /// The reflection object is created.
    CreateReflection,
    /// The resources of the stage are read out of the linked result.
    Reflect,
    /// The live objects are released, the last acquired first.
    Release,
    /// The native binary is made into a library.
    CreateLibrary,
    /// The entry function is looked up in the library.
    CreateFunction,
    /// The translation is over.
    Finished,
}

/// A native call of the translation. What a call works on (the entry point,
/// the bytecode, the stage) is in the translation's record.
#[derive(Copy, Clone, Debug, PartialEq, Eq, Hash, Structural)]
pub enum TranslatorCall {
    /// Create the translator context.
    CreateCompiler,
    /// Bind the entry point to the context.
    SetEntryPointName,
    /// Wrap the intermediate bytecode, in place, as the input object.
    CreateObjectFromDxil,
    /// Compile and link the input against the context.
    CompileAndLink,
    /// Create the container for the native binary.
    CreateMetalLibBinary,
    /// Read the native binary of the stage into the container, and copy it
    /// out.
    GetMetalLibBinary,
    /// Create the reflection object.
    CreateReflection,
    /// Reflect the stage, and read the number of its resources and their
    /// locations.
    GetReflection,
    /// Release the object.
    Destroy(NativeObject),
    /// Make the native binary into a library.
    NewLibrary,
    /// Look up the entry function in the library.
    NewFunction,
}

/// Why a translation failed.
#[derive(Copy, Clone, Debug, PartialEq, Eq, Hash, Structural)]
pub enum TranslationFailure {
    /// There is no translator context.
    CompilerNotCreated,
    /// The bytecode could not be wrapped.
    InputNotCreated,
    /// Compiling and linking failed with this code.
    LinkFailed(u32),
    /// There is no container for the native binary.
    BinaryNotCreated,
    /// The linked result has no native binary for the stage.
    BytecodeMissing,
    /// There is no reflection object.
    ReflectionNotCreated,
    /// The linked result could not be reflected.
    ReflectionFailed,
    /// The reflection gave another number of locations than it reported, or
    /// two locations for one resource.
    ReflectionInconsistent,
    /// The native binary could not be made into a library.
    LibraryFailed,
    /// The library has no function of the entry point's name.
    FunctionMissing,
    /// An answer that the pending call cannot give.
    UnexpectedReply,
}

/// The answer to a native call.
pub enum TranslatorReply {
    /// The call succeeded and gives nothing back.
    Done,
    /// The call failed and gives nothing back.
    Failed,
    /// Compiling and linking failed with this code, and left an error object.
    LinkFailed(u32),
    /// The native binary.
    Bytecode(Vec<u8>),
    /// The number of resources that the reflection reports, and their
    /// locations.
    Reflection { count: usize, locations: Vec<ResourceLocation> },
    /// The handle of the library; zero where there is none.
    Library(u64),
    /// The library was not made; the description of the native error.
    LibraryFailed(String),
    /// The handle of the function; zero where there is none.
    Function(u64),
}

/// The state of a translation, as plain values.
pub struct TranslationState {
    pub step: TranslationStep,
    /// The objects that were acquired and not yet released, in the order of
    /// their acquisition.
    pub live: Seq<NativeObject>,
    pub bytecode: Seq<u8>,
    pub locations: Seq<ResourceLocation>,
    pub library: u64,
    pub function: u64,
    pub failure: Option<TranslationFailure>,
    pub diagnostic: Seq<char>,
}

/// The intermediate objects in the order in which a translation acquires
/// them.
pub open spec fn acquisition_order() -> Seq<NativeObject> {
    seq![
        NativeObject::Compiler,
        NativeObject::Input,
        NativeObject::Linked,
        NativeObject::Binary,
        NativeObject::Reflection,
    ]
}

impl TranslationState {
    /// The state in which a translation starts.
    pub open spec fn initial() -> TranslationState {
        TranslationState {
            step: TranslationStep::CreateCompiler,
            live: Seq::empty(),
            bytecode: Seq::empty(),
            locations: Seq::empty(),
            library: 0,
            function: 0,
            failure: None,
            diagnostic: Seq::empty(),
        }
    }

    /// The call that the translation waits for; none when it is over.
    pub open spec fn pending(self) -> Option<TranslatorCall> {
        match self.step {
            TranslationStep::CreateCompiler => Some(TranslatorCall::CreateCompiler),
            TranslationStep::SetEntryPoint => Some(TranslatorCall::SetEntryPointName),
            TranslationStep::CreateInput => Some(TranslatorCall::CreateObjectFromDxil),
            TranslationStep::CompileAndLink => Some(TranslatorCall::CompileAndLink),
            TranslationStep::CreateBinary => Some(TranslatorCall::CreateMetalLibBinary),
            TranslationStep::ExtractBinary => Some(TranslatorCall::GetMetalLibBinary),
            TranslationStep::CreateReflection => Some(TranslatorCall::CreateReflection),
            TranslationStep::Reflect => Some(TranslatorCall::GetReflection),
            TranslationStep::Release => if self.live.len() > 0 {
                Some(TranslatorCall::Destroy(self.live.last()))
            } else {
                None
            },
            TranslationStep::CreateLibrary => Some(TranslatorCall::NewLibrary),
            TranslationStep::CreateFunction => Some(TranslatorCall::NewFunction),
            TranslationStep::Finished => None,
        }
    }

    /// The state after an object was acquired.
    pub open spec fn acquired(
        self,
        object: NativeObject,
        step: TranslationStep,
    ) -> TranslationState {
        TranslationState { step, live: self.live.push(object), ..self }
    }

    /// The state after a failure: what is live is released, then the
    /// translation is over.
    pub open spec fn failed(self, failure: TranslationFailure) -> TranslationState {
        TranslationState {
            step: if self.live.len() > 0 {
                TranslationStep::Release
            } else {
                TranslationStep::Finished
            },
            failure: Some(failure),
            ..self
        }
    }

    /// The state after the object acquired last was released: the next one is
    /// released; when none is left, a failed translation is over, and one
    /// that has not failed goes on to make the library.
    pub open spec fn released(self) -> TranslationState {
        let live = self.live.drop_last();
        TranslationState {
            step: if live.len() > 0 {
                TranslationStep::Release
            } else if self.failure is Some {
                TranslationStep::Finished
            } else {
                TranslationStep::CreateLibrary
            },
            live,
            ..self
        }
    }

    /// The state that follows when the pending call is answered.
    pub open spec fn answered(self, reply: TranslatorReply) -> TranslationState {
        match self.step {
            TranslationStep::CreateCompiler => match reply {
                TranslatorReply::Done => self.acquired(
                    NativeObject::Compiler,
                    TranslationStep::SetEntryPoint,
                ),
                TranslatorReply::Failed => self.failed(TranslationFailure::CompilerNotCreated),
                _ => self.failed(TranslationFailure::UnexpectedReply),
            },
            TranslationStep::SetEntryPoint => match reply {
                TranslatorReply::Done => TranslationState {
                    step: TranslationStep::CreateInput,
                    ..self
                },
                _ => self.failed(TranslationFailure::UnexpectedReply),
            },
            TranslationStep::CreateInput => match reply {
                TranslatorReply::Done => self.acquired(
                    NativeObject::Input,
                    TranslationStep::CompileAndLink,
                ),
                TranslatorReply::Failed => self.failed(TranslationFailure::InputNotCreated),
                _ => self.failed(TranslationFailure::UnexpectedReply),
            },
            TranslationStep::CompileAndLink => match reply {
                TranslatorReply::Done => self.acquired(
                    NativeObject::Linked,
                    TranslationStep::CreateBinary,
                ),
                TranslatorReply::LinkFailed(code) => self.acquired(
                    NativeObject::LinkError,
                    TranslationStep::CompileAndLink,
                ).failed(TranslationFailure::LinkFailed(code)),
                _ => self.failed(TranslationFailure::UnexpectedReply),
            },
            TranslationStep::CreateBinary => match reply {
                TranslatorReply::Done => self.acquired(
                    NativeObject::Binary,
                    TranslationStep::ExtractBinary,
                ),
                TranslatorReply::Failed => self.failed(TranslationFailure::BinaryNotCreated),
                _ => self.failed(TranslationFailure::UnexpectedReply),
            },
            TranslationStep::ExtractBinary => match reply {
                TranslatorReply::Bytecode(bytecode) => if bytecode@.len() > 0 {
                    TranslationState {
                        step: TranslationStep::CreateReflection,
                        bytecode: bytecode@,
                        ..self
                    }
                } else {
                    self.failed(TranslationFailure::BytecodeMissing)
                },
                TranslatorReply::Failed => self.failed(TranslationFailure::BytecodeMissing),
                _ => self.failed(TranslationFailure::UnexpectedReply),
            },
            TranslationStep::CreateReflection => match reply {
                TranslatorReply::Done => self.acquired(
                    NativeObject::Reflection,
                    TranslationStep::Reflect,
                ),
                TranslatorReply::Failed => self.failed(TranslationFailure::ReflectionNotCreated),
                _ => self.failed(TranslationFailure::UnexpectedReply),
            },
            TranslationStep::Reflect => match reply {
                TranslatorReply::Reflection { count, locations } => if locations@.len() == count
                    && distinct_bindings(locations@) {
                    TranslationState {
                        step: if self.live.len() > 0 {
                            TranslationStep::Release
                        } else {
                            TranslationStep::CreateLibrary
                        },
                        locations: locations@,
                        ..self
                    }
                } else {
                    self.failed(TranslationFailure::ReflectionInconsistent)
                },
                TranslatorReply::Failed => self.failed(TranslationFailure::ReflectionFailed),
                _ => self.failed(TranslationFailure::UnexpectedReply),
            },
            TranslationStep::Release => if self.live.len() > 0 {
                self.released()
            } else {
                self
            },
            TranslationStep::CreateLibrary => match reply {
                TranslatorReply::Library(handle) => if handle != 0 {
                    TranslationState {
                        library: handle,
                        ..self.acquired(NativeObject::Library, TranslationStep::CreateFunction)
                    }
                } else {
                    self.failed(TranslationFailure::LibraryFailed)
                },
                TranslatorReply::LibraryFailed(description) => TranslationState {
                    diagnostic: description@,
                    ..self.failed(TranslationFailure::LibraryFailed)
                },
                _ => self.failed(TranslationFailure::UnexpectedReply),
            },
            TranslationStep::CreateFunction => match reply {
                TranslatorReply::Function(handle) => if handle != 0 {
                    TranslationState {
                        step: TranslationStep::Finished,
                        live: Seq::empty(),
                        function: handle,
                        ..self
                    }
                } else {
                    self.failed(TranslationFailure::FunctionMissing)
                },
                TranslatorReply::Failed => self.failed(TranslationFailure::FunctionMissing),
                _ => self.failed(TranslationFailure::UnexpectedReply),
            },
            TranslationStep::Finished => self,
        }
    }

    /// What holds of every state that a translation reaches: the live
    /// objects are those that the calls so far acquired, in their order, and
    /// a translation that is over holds none.
    pub open spec fn consistent(self) -> bool {
        match self.step {
            TranslationStep::CreateCompiler => self.failure is None && self.live
                =~= acquisition_order().take(0),
            TranslationStep::SetEntryPoint | TranslationStep::CreateInput => self.failure is None
                && self.live =~= acquisition_order().take(1),
            TranslationStep::CompileAndLink => self.failure is None && self.live
                =~= acquisition_order().take(2),
            TranslationStep::CreateBinary => self.failure is None && self.live
                =~= acquisition_order().take(3),
            TranslationStep::ExtractBinary => self.failure is None && self.live
                =~= acquisition_order().take(4),
            TranslationStep::CreateReflection => self.failure is None && self.live
                =~= acquisition_order().take(4) && self.bytecode.len() > 0,
            TranslationStep::Reflect => self.failure is None && self.live
                =~= acquisition_order().take(5) && self.bytecode.len() > 0,
            TranslationStep::Release => {
                &&& self.live.len() > 0
                &&& self.failure is None ==> self.bytecode.len() > 0 && distinct_bindings(
                    self.locations,
                )
                &&& {
                    ||| exists|n: int|
                        0 < n <= 5 && self.live =~= #[trigger] acquisition_order().take(n)
                    ||| self.failure is Some && self.live =~= acquisition_order().take(2).push(
                        NativeObject::LinkError,
                    )
                    ||| self.failure is Some && self.live =~= seq![NativeObject::Library]
                }
            },
            TranslationStep::CreateLibrary => self.failure is None && self.live.len() == 0
                && self.bytecode.len() > 0 && distinct_bindings(self.locations),
            TranslationStep::CreateFunction => self.failure is None && self.live
                =~= seq![NativeObject::Library] && self.library != 0 && distinct_bindings(
                self.locations,
            ),
            TranslationStep::Finished => self.live.len() == 0 && (self.failure is None
                ==> self.library != 0 && self.function != 0 && distinct_bindings(self.locations)),
        }
    }

    /// A bound on the number of calls that are still to come.
    pub open spec fn calls_left(self) -> nat {
        match self.step {
            TranslationStep::CreateCompiler => 16,
            TranslationStep::SetEntryPoint => 15,
            TranslationStep::CreateInput => 14,
            TranslationStep::CompileAndLink => 13,
            TranslationStep::CreateBinary => 12,
            TranslationStep::ExtractBinary => 11,
            TranslationStep::CreateReflection => 10,
            TranslationStep::Reflect => 9,
            TranslationStep::Release => self.live.len() + (if self.failure is None {
                3nat
            } else {
                0nat
            }),
            TranslationStep::CreateLibrary => 3,
            TranslationStep::CreateFunction => 2,
            TranslationStep::Finished => 0,
        }
    }
}

/// A translation starts in a consistent state.
pub proof fn lemma_initial_consistent()
    ensures
        TranslationState::initial().consistent(),
{
}

/// Whatever a call answers, the state that follows a consistent state is
/// consistent.
pub proof fn lemma_answered_consistent(state: TranslationState, reply: TranslatorReply)
    requires
        state.consistent(),
    ensures
        state.answered(reply).consistent(),
{
    let order = acquisition_order();
    if state.step is Release && exists|n: int|
        0 < n <= 5 && state.live == #[trigger] order.take(n) {
        let n = choose|n: int| 0 < n <= 5 && state.live == #[trigger] order.take(n);
        assert(state.answered(reply).live == order.take(n - 1));
    }
}

/// A translation that is over holds no native object any more: whatever it
/// acquired was released, or has passed to the shader module.
pub proof fn lemma_finished_holds_nothing(state: TranslationState)
    requires
        state.consistent(),
        state.pending() is None,
    ensures
        state.live.len() == 0,
        state.step is Finished,
{
}

/// A failure ends a translation: after it nothing is acquired any more, and
/// the only calls left are the releases of what is live.
pub proof fn lemma_failed_only_releases(state: TranslationState)
    requires
        state.consistent(),
        state.failure is Some,
    ensures
        state.pending() matches Some(call) ==> call matches TranslatorCall::Destroy(_),
{
}

/// Objects are released in the reverse order of their acquisition: a release
/// is always of the object acquired last among the live ones, and takes just
/// that one away.
pub proof fn lemma_release_order(
    state: TranslationState,
    object: NativeObject,
    reply: TranslatorReply,
)
    requires
        state.pending() == Some(TranslatorCall::Destroy(object)),
    ensures
        state.live.len() > 0,
        object == state.live.last(),
        state.answered(reply).live == state.live.drop_last(),
{
}

/// Every answer brings a translation closer to its end: a translation is
/// over after at most sixteen calls.
pub proof fn lemma_answered_progress(state: TranslationState, reply: TranslatorReply)
    requires
        state.consistent(),
        state.pending() is Some,
    ensures
        state.answered(reply).calls_left() < state.calls_left(),
        state.calls_left() <= 16,
{
}

/// The locations of a translation that has not failed are those that the
/// reflection gave: as many as it reported, no resource twice.
pub proof fn lemma_reflection_complete(
    state: TranslationState,
    count: usize,
    locations: Vec<ResourceLocation>,
)
    requires
        state.step is Reflect,
        state.failure is None,
    ensures
        ({
            let next = state.answered(TranslatorReply::Reflection { count, locations });
            next.failure is None ==> next.locations == locations@ && next.locations.len() == count
                && distinct_bindings(next.locations)
        }),
{
}

/// Once the reflection is read, no later answer changes the locations.
pub proof fn lemma_locations_kept(state: TranslationState, reply: TranslatorReply)
    requires
        !(state.step is Reflect),
    ensures
        state.answered(reply).locations == state.locations,
{
}

/// The message for a translator context that was not created.
pub const COMPILER_NOT_CREATED: &'static str = "Failed to create ir compiler";

/// The message for bytecode that could not be wrapped.
pub const INPUT_NOT_CREATED: &'static str = "Failed to create ir object";

/// The start of the message for a failure to compile and link; the code of
/// the failure follows it.
pub const LINK_FAILED: &'static str = "Failed to compile and link shader: ";

/// The message for a binary container that was not created.
pub const BINARY_NOT_CREATED: &'static str = "Failed to create metal lib binary";

/// The message for a linked result without a native binary.
pub const BYTECODE_MISSING: &'static str = "Bytecode is null";

/// The message for a reflection that was not created.
pub const REFLECTION_NOT_CREATED: &'static str = "Failed to create shader reflection";

/// The message for a linked result that could not be reflected.
pub const REFLECTION_FAILED: &'static str = "IRObjectGetReflection failed";

/// The message for a reflection that contradicts itself.
pub const REFLECTION_INCONSISTENT: &'static str = "Shader reflection is inconsistent";

/// The message for a library without the entry function.
pub const FUNCTION_MISSING: &'static str = "Failed to create function";

/// `error` is the error of the layer for a failed translation: a failure of
/// the translator carries the translator's message, a failure to make the
/// library carries the description of the native error.
pub open spec fn reports(error: Error, failure: TranslationFailure, diagnostic: Seq<char>) -> bool {
    match failure {
        TranslationFailure::CompilerNotCreated => error matches Error::MetalShaderConverter(message)
            && message@ == COMPILER_NOT_CREATED@,
        TranslationFailure::InputNotCreated => error matches Error::MetalShaderConverter(message)
            && message@ == INPUT_NOT_CREATED@,
        TranslationFailure::LinkFailed(code) => error matches Error::MetalShaderConverter(message)
            && exists|digits: String| #[trigger]
            to_string_from_display_ensures::<u32>(&code, digits) && message@ == LINK_FAILED@
                + digits@,
        TranslationFailure::BinaryNotCreated => error matches Error::MetalShaderConverter(message)
            && message@ == BINARY_NOT_CREATED@,
        TranslationFailure::BytecodeMissing => error matches Error::MetalShaderConverter(message)
            && message@ == BYTECODE_MISSING@,
        TranslationFailure::ReflectionNotCreated => error matches Error::MetalShaderConverter(
            message,
        ) && message@ == REFLECTION_NOT_CREATED@,
        TranslationFailure::ReflectionFailed => error matches Error::MetalShaderConverter(message)
            && message@ == REFLECTION_FAILED@,
        TranslationFailure::ReflectionInconsistent => error matches Error::MetalShaderConverter(
            message,
        ) && message@ == REFLECTION_INCONSISTENT@,
        TranslationFailure::LibraryFailed => error matches Error::NSError(description)
            && description@ == diagnostic,
        TranslationFailure::FunctionMissing => error matches Error::MetalError(message)
            && message@ == FUNCTION_MISSING@,
        TranslationFailure::UnexpectedReply => error is Unknown,
    }
}

/// The error of the layer for a failed translation.
pub fn failure_error(failure: TranslationFailure, diagnostic: String) -> (error: Error)
    ensures
        reports(error, failure, diagnostic@),
{
    match failure {
        TranslationFailure::CompilerNotCreated => Error::MetalShaderConverter(
            COMPILER_NOT_CREATED.to_owned(),
        ),
        TranslationFailure::InputNotCreated => Error::MetalShaderConverter(
            INPUT_NOT_CREATED.to_owned(),
        ),
        TranslationFailure::LinkFailed(code) => {
            let digits = code.to_string();
            Error::MetalShaderConverter(LINK_FAILED.to_owned().concat(digits.as_str()))
        },
        TranslationFailure::BinaryNotCreated => Error::MetalShaderConverter(
            BINARY_NOT_CREATED.to_owned(),
        ),
        TranslationFailure::BytecodeMissing => Error::MetalShaderConverter(
            BYTECODE_MISSING.to_owned(),
        ),
        TranslationFailure::ReflectionNotCreated => Error::MetalShaderConverter(
            REFLECTION_NOT_CREATED.to_owned(),
        ),
        TranslationFailure::ReflectionFailed => Error::MetalShaderConverter(
            REFLECTION_FAILED.to_owned(),
        ),
        TranslationFailure::ReflectionInconsistent => Error::MetalShaderConverter(
            REFLECTION_INCONSISTENT.to_owned(),
        ),
        TranslationFailure::LibraryFailed => Error::NSError(diagnostic),
        TranslationFailure::FunctionMissing => Error::MetalError(FUNCTION_MISSING.to_owned()),
        TranslationFailure::UnexpectedReply => Error::Unknown,
    }
}

/// A translation under way: what is translated, for which device, and how
/// far it has come.
pub struct ShaderTranslation {
    pub device: Arc<MetalDevice>,
    pub kind: ShaderKind,
    pub entry_point: String,
    /// The intermediate bytecode.
    pub dxil: Vec<u8>,
    pub step: TranslationStep,
    /// The objects that were acquired and not yet released, in the order of
    /// their acquisition.
    pub live: Vec<NativeObject>,
    /// The native binary, once it is extracted.
    pub bytecode: Vec<u8>,
    pub locations: Vec<ResourceLocation>,
    pub library: u64,
    pub function: u64,
    pub failure: Option<TranslationFailure>,
    /// What the native error said, where making the library failed.
    pub diagnostic: String,
}

impl View for ShaderTranslation {
    type V = TranslationState;

    open spec fn view(&self) -> TranslationState {
        TranslationState {
            step: self.step,
            live: self.live@,
            bytecode: self.bytecode@,
            locations: self.locations@,
            library: self.library,
            function: self.function,
            failure: self.failure,
            diagnostic: self.diagnostic@,
        }
    }
}

impl ShaderTranslation {
    /// `next` translates what `self` translates, for the same device.
    pub open spec fn same_task(&self, next: &ShaderTranslation) -> bool {
        &&& next.device == self.device
        &&& next.kind == self.kind
        &&& next.entry_point == self.entry_point
        &&& next.dxil == self.dxil
    }

    /// The translation of the bytecode of a description, before its first
    /// call.
    ///
    /// An entry point with a NUL character is refused, with the position of
    /// the first one.
    pub fn new(device: Arc<MetalDevice>, desc: &ShaderDesc, dxil: Vec<u8>) -> (translation: Result<
        Self,
        Error,
    >)
        ensures
            match first_nul(desc.entry_point@) {
                Some(position) => exists|at: usize|
                    translation == Err::<Self, Error>(Error::NulError(at)) && at == position,
                None => {
                    &&& translation matches Ok(translation)
                    &&& translation@ == TranslationState::initial()
                    &&& translation.device == device
                    &&& translation.kind == desc.kind
                    &&& translation.entry_point == desc.entry_point
                    &&& translation.dxil == dxil
                },
            },
    {
        if let Some(position) = nul_position(desc.entry_point.as_str()) {
            return Err(Error::NulError(position));
        }
        Ok(
            ShaderTranslation {
                device,
                kind: desc.kind,
                entry_point: desc.entry_point.clone(),
                dxil,
                step: TranslationStep::CreateCompiler,
                live: Vec::new(),
                bytecode: Vec::new(),
                locations: Vec::new(),
                library: 0,
                function: 0,
                failure: None,
                diagnostic: String::new(),
            },
        )
    }

    /// The native call to make now; none when the translation is over.
    pub fn next_call(&self) -> (call: Option<TranslatorCall>)
        ensures
            call == self@.pending(),
    {
        match self.step {
            TranslationStep::CreateCompiler => Some(TranslatorCall::CreateCompiler),
            TranslationStep::SetEntryPoint => Some(TranslatorCall::SetEntryPointName),
            TranslationStep::CreateInput => Some(TranslatorCall::CreateObjectFromDxil),
            TranslationStep::CompileAndLink => Some(TranslatorCall::CompileAndLink),
            TranslationStep::CreateBinary => Some(TranslatorCall::CreateMetalLibBinary),
            TranslationStep::ExtractBinary => Some(TranslatorCall::GetMetalLibBinary),
            TranslationStep::CreateReflection => Some(TranslatorCall::CreateReflection),
            TranslationStep::Reflect => Some(TranslatorCall::GetReflection),
            TranslationStep::Release => {
                let held = self.live.len();
                if held > 0 {
                    Some(TranslatorCall::Destroy(self.live[held - 1]))
                } else {
                    None
                }
            },
            TranslationStep::CreateLibrary => Some(TranslatorCall::NewLibrary),
            TranslationStep::CreateFunction => Some(TranslatorCall::NewFunction),
            TranslationStep::Finished => None,
        }
    }

    /// The translation after an object was acquired.
    fn acquire(self, object: NativeObject, step: TranslationStep) -> (next: Self)
        ensures
            next@ == self@.acquired(object, step),
            self.same_task(&next),
    {
        let mut next = self;
        next.live.push(object);
        next.step = step;
        next
    }

    /// The translation after a failure.
    fn fail(self, failure: TranslationFailure) -> (next: Self)
        ensures
            next@ == self@.failed(failure),
            self.same_task(&next),
    {
        let mut next = self;
        next.step = if next.live.len() > 0 {
            TranslationStep::Release
        } else {
            TranslationStep::Finished
        };
        next.failure = Some(failure);
        next
    }

    /// The translation after the object acquired last was released.
    fn release(self) -> (next: Self)
        requires
            self.live.len() > 0,
        ensures
            next@ == self@.released(),
            self.same_task(&next),
    {
        let mut next = self;
        next.live.pop();
        next.step = if next.live.len() > 0 {
            TranslationStep::Release
        } else if next.failure.is_some() {
            TranslationStep::Finished
        } else {
            TranslationStep::CreateLibrary
        };
        next
    }

    /// The translation after the pending call was answered.
    ///
    /// An answer that the pending call cannot give makes the translation
    /// fail. A translation that is over stays as it is.
    pub fn advance(self, reply: TranslatorReply) -> (next: Self)
        ensures
            next@ == self@.answered(reply),
            self.same_task(&next),
    {
        match self.step {
            TranslationStep::CreateCompiler => match reply {
                TranslatorReply::Done => self.acquire(
                    NativeObject::Compiler,
                    TranslationStep::SetEntryPoint,
                ),
                TranslatorReply::Failed => self.fail(TranslationFailure::CompilerNotCreated),
                _ => self.fail(TranslationFailure::UnexpectedReply),
            },
            TranslationStep::SetEntryPoint => match reply {
                TranslatorReply::Done => {
                    let mut next = self;
                    next.step = TranslationStep::CreateInput;
                    next
                },
                _ => self.fail(TranslationFailure::UnexpectedReply),
            },
            TranslationStep::CreateInput => match reply {
                TranslatorReply::Done => self.acquire(
                    NativeObject::Input,
                    TranslationStep::CompileAndLink,
                ),
                TranslatorReply::Failed => self.fail(TranslationFailure::InputNotCreated),
                _ => self.fail(TranslationFailure::UnexpectedReply),
            },
            TranslationStep::CompileAndLink => match reply {
                TranslatorReply::Done => self.acquire(
                    NativeObject::Linked,
                    TranslationStep::CreateBinary,
                ),
                TranslatorReply::LinkFailed(code) => self.acquire(
                    NativeObject::LinkError,
                    TranslationStep::CompileAndLink,
                ).fail(TranslationFailure::LinkFailed(code)),
                _ => self.fail(TranslationFailure::UnexpectedReply),
            },
            TranslationStep::CreateBinary => match reply {
                TranslatorReply::Done => self.acquire(
                    NativeObject::Binary,
                    TranslationStep::ExtractBinary,
                ),
                TranslatorReply::Failed => self.fail(TranslationFailure::BinaryNotCreated),
                _ => self.fail(TranslationFailure::UnexpectedReply),
            },
            TranslationStep::ExtractBinary => match reply {
                TranslatorReply::Bytecode(bytecode) => {
                    if bytecode.len() > 0 {
                        let mut next = self;
                        next.step = TranslationStep::CreateReflection;
                        next.bytecode = bytecode;
                        next
                    } else {
                        self.fail(TranslationFailure::BytecodeMissing)
                    }
                },
                TranslatorReply::Failed => self.fail(TranslationFailure::BytecodeMissing),
                _ => self.fail(TranslationFailure::UnexpectedReply),
            },
            TranslationStep::CreateReflection => match reply {
                TranslatorReply::Done => self.acquire(
                    NativeObject::Reflection,
                    TranslationStep::Reflect,
                ),
                TranslatorReply::Failed => self.fail(TranslationFailure::ReflectionNotCreated),
                _ => self.fail(TranslationFailure::UnexpectedReply),
            },
            TranslationStep::Reflect => match reply {
                TranslatorReply::Reflection { count, locations } => {
                    if locations.len() == count && has_distinct_bindings(&locations) {
                        let mut next = self;
                        next.step = if next.live.len() > 0 {
                            TranslationStep::Release
                        } else {
                            TranslationStep::CreateLibrary
                        };
                        next.locations = locations;
                        next
                    } else {
                        self.fail(TranslationFailure::ReflectionInconsistent)
                    }
                },
                TranslatorReply::Failed => self.fail(TranslationFailure::ReflectionFailed),
                _ => self.fail(TranslationFailure::UnexpectedReply),
            },
            TranslationStep::Release => {
                if self.live.len() > 0 {
                    self.release()
                } else {
                    self
                }
            },
            TranslationStep::CreateLibrary => match reply {
                TranslatorReply::Library(handle) => {
                    if handle != 0 {
                        let mut next = self.acquire(
                            NativeObject::Library,
                            TranslationStep::CreateFunction,
                        );
                        next.library = handle;
                        next
                    } else {
                        self.fail(TranslationFailure::LibraryFailed)
                    }
                },
                TranslatorReply::LibraryFailed(description) => {
                    let mut next = self.fail(TranslationFailure::LibraryFailed);
                    next.diagnostic = description;
                    next
                },
                _ => self.fail(TranslationFailure::UnexpectedReply),
            },
            TranslationStep::CreateFunction => match reply {
                TranslatorReply::Function(handle) => {
                    if handle != 0 {
                        let mut next = self;
                        next.step = TranslationStep::Finished;
                        next.live = Vec::new();
                        next.function = handle;
                        next
                    } else {
                        self.fail(TranslationFailure::FunctionMissing)
                    }
                },
                TranslatorReply::Failed => self.fail(TranslationFailure::FunctionMissing),
                _ => self.fail(TranslationFailure::UnexpectedReply),
            },
            TranslationStep::Finished => self,
        }
    }

    /// What a translation that is over has come to: the shader module, or the
    /// error for its failure.
    pub fn finish(self) -> (module: Result<ShaderModule, Error>)
        requires
            self@.pending() is None,
        ensures
            match self@.failure {
                None => {
                    &&& module matches Ok(ShaderModule::Metal(module))
                    &&& module.device == self.device
                    &&& module.library == self.library
                    &&& module.function == self.function
                    &&& module.locations == self.locations
                    &&& self@.consistent() ==> module.well_formed()
                },
                Some(failure) => module matches Err(error) && reports(
                    error,
                    failure,
                    self.diagnostic@,
                ),
            },
    {
        match self.failure {
            Some(failure) => Err(failure_error(failure, self.diagnostic)),
            None => {
                match MetalShaderModule::new(
                    self.device,
                    self.library,
                    self.function,
                    self.locations,
                ) {
                    Ok(module) => Ok(ShaderModule::Metal(module)),
                    Err(error) => Err(error),
                }
            },
        }
    }
}

} // verus!
