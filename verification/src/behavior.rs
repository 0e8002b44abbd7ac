use crate::error::Failure;
use vstd::string::StringExecFns;
use core::marker::PhantomData;
use vstd::prelude::*;

verus! {

/// A type-level identifier, by number.
pub struct Id<const N: u32>;

/// Canonical effect contract used by flow shape and wire schema.
pub trait EffectSchema<J = ()> {
    /// A type-level identifier for this effect.
    type Id;

    /// The input type accepted by this effect.
    type In;

    /// The output type produced by this effect.
    type Out;

    /// The error type produced by this effect.
    type Err;
}

/// A completed effect result consumed by an awaiting workflow phase.
pub type EffectCompletion<A, J = ()> = Result<<A as EffectSchema<J>>::Out, <A as EffectSchema<J>>::Err>;

/// A typed effect request emitted by a yielding workflow phase.
pub struct EffectRequest<A: EffectSchema<J>, J = ()> {
    pub input: <A as EffectSchema<J>>::In,
    marker: PhantomData<(A, J)>,
}

impl<A: EffectSchema<J>, J> EffectRequest<A, J> {
    /// The request's input.
    pub closed spec fn request_input(self) -> <A as EffectSchema<J>>::In {
        self.input
    }

    /// A request for the effect with `input`.
    pub fn new(input: <A as EffectSchema<J>>::In) -> (r: Self)
        ensures
            r.request_input() == input,
    {
        EffectRequest { input, marker: PhantomData }
    }

    /// The request's input.
    pub fn into_input(self) -> (input: <A as EffectSchema<J>>::In)
        ensures
            input == self.request_input(),
    {
        self.input
    }
}

/// A living animal within the ecosystem.
pub trait Animal {
    /// A type-level identifier for this animal.
    type Id;

    /// A type-level generation for this animal. New journeys target the
    /// latest generation of an id, while journeys in flight resume on
    /// their original generation.
    type Generation;

    /// The state of this animal at any given time.
    type State: Default;

    /// The seed that makes the first step input of the animal's journey.
    type Seed;

    /// The fundamental behavior template of this animal.
    type Flow;
}

/// Projects a larger state into a focused mutable substate: the focus of
/// a state is `focus_of`, and writing a focus back gives `refocus`.
pub trait StateCarrier<State> {
    type Focus;

    /// The part of `state` this carrier focuses on.
    spec fn focus_of(state: State) -> Self::Focus;

    /// `state` with its focused part replaced by `focus`.
    spec fn refocus(state: State, focus: Self::Focus) -> State;

    /// A mutable view of the focused part of `state`; whatever is written
    /// through it is written back into `state`.
    fn focus(state: &mut State) -> (f: &mut Self::Focus)
        ensures
            *f == Self::focus_of(*old(state)),
            *final(state) == Self::refocus(*old(state), *final(f)),
    ;
}

/// A carrier usable as the focus of an action.
pub trait Aspect<State>: StateCarrier<State> {}

impl<T, State> Aspect<State> for T where T: StateCarrier<State> {}

/// Focuses to the full state itself.
pub struct Identity;

impl<State> StateCarrier<State> for Identity {
    type Focus = State;

    open spec fn focus_of(state: State) -> State {
        state
    }

    open spec fn refocus(state: State, focus: State) -> State {
        focus
    }

    fn focus(state: &mut State) -> (f: &mut State) {
        state
    }
}

/// Composes two carriers: the outer one's focus, focused again by the inner one.
pub struct ComposeCarrier<Outer, Inner>(PhantomData<(Outer, Inner)>);

impl<State, Outer, Inner> StateCarrier<State> for ComposeCarrier<Outer, Inner> where
    Outer: StateCarrier<State>,
    <Outer as StateCarrier<State>>::Focus: 'static,
    Inner: StateCarrier<<Outer as StateCarrier<State>>::Focus>,
 {
    type Focus = <Inner as StateCarrier<<Outer as StateCarrier<State>>::Focus>>::Focus;

    open spec fn focus_of(state: State) -> Self::Focus {
        Inner::focus_of(Outer::focus_of(state))
    }

    open spec fn refocus(state: State, focus: Self::Focus) -> State {
        Outer::refocus(state, Inner::refocus(Outer::focus_of(state), focus))
    }

    fn focus(state: &mut State) -> (f: &mut Self::Focus) {
        let outer = <Outer as StateCarrier<State>>::focus(state);
        <Inner as StateCarrier<<Outer as StateCarrier<State>>::Focus>>::focus(outer)
    }
}

/// Composing a carrier after the identity carrier focuses exactly as the
/// carrier alone, and writes back exactly as it does.
pub proof fn lemma_identity_composes_neutrally<State: 'static, C: StateCarrier<State>>(state: State, focus: C::Focus)
    ensures
        <ComposeCarrier<Identity, C> as StateCarrier<State>>::focus_of(state) == C::focus_of(state),
        <ComposeCarrier<Identity, C> as StateCarrier<State>>::refocus(state, focus) == C::refocus(state, focus),
{
}

/// The step-facing contract that adapts an effect over an aspect of an
/// animal's state: `emit` makes the effect's input from the focused state
/// and the step input, `absorb` takes the effect's completion into the
/// focused state and gives the step output; the `_with_carry` forms pass a
/// carry value from one to the other.
pub trait BoundAction<T: Animal> {
    type Effect: EffectSchema;
    type Aspect: Aspect<T::State>;
    type Input;
    type Output;
    type Carry;

    spec fn emit_spec(
        view: <Self::Aspect as StateCarrier<T::State>>::Focus,
        input: Self::Input,
    ) -> <Self::Effect as EffectSchema>::In;

    fn emit(view: &<Self::Aspect as StateCarrier<T::State>>::Focus, input: Self::Input) -> (r: <Self::Effect as EffectSchema>::In)
        ensures
            r == Self::emit_spec(*view, input),
    ;

    /// Whether `absorb` is available; a fused action offers only
    /// `absorb_with_carry`.
    spec fn absorb_available() -> bool;

    spec fn absorb_spec(
        view: <Self::Aspect as StateCarrier<T::State>>::Focus,
        output: EffectCompletion<Self::Effect>,
    ) -> (<Self::Aspect as StateCarrier<T::State>>::Focus, Result<Self::Output, Failure>);

    fn absorb(
        view: &mut <Self::Aspect as StateCarrier<T::State>>::Focus,
        output: EffectCompletion<Self::Effect>,
    ) -> (r: Result<Self::Output, Failure>)
        requires
            Self::absorb_available(),
        ensures
            (*final(view), r) == Self::absorb_spec(*old(view), output),
    ;

    spec fn emit_with_carry_spec(
        view: <Self::Aspect as StateCarrier<T::State>>::Focus,
        input: Self::Input,
    ) -> (<Self::Effect as EffectSchema>::In, Self::Carry);

    fn emit_with_carry(view: &<Self::Aspect as StateCarrier<T::State>>::Focus, input: Self::Input) -> (r: (
        <Self::Effect as EffectSchema>::In,
        Self::Carry,
    ))
        ensures
            r == Self::emit_with_carry_spec(*view, input),
    ;

    spec fn absorb_with_carry_spec(
        view: <Self::Aspect as StateCarrier<T::State>>::Focus,
        output: EffectCompletion<Self::Effect>,
        carry: Self::Carry,
    ) -> (<Self::Aspect as StateCarrier<T::State>>::Focus, Result<Self::Output, Failure>);

    fn absorb_with_carry(
        view: &mut <Self::Aspect as StateCarrier<T::State>>::Focus,
        output: EffectCompletion<Self::Effect>,
        carry: Self::Carry,
    ) -> (r: Result<Self::Output, Failure>)
        ensures
            (*final(view), r) == Self::absorb_with_carry_spec(*old(view), output, carry),
    ;
}

/// Animal adapter that reuses the identity of `A` while its state is `Scope`.
pub struct ScopedAnimal<A, Scope>(PhantomData<(A, Scope)>);

impl<A, Scope> Animal for ScopedAnimal<A, Scope> where A: Animal, Scope: Default {
    type Id = A::Id;
    type Generation = A::Generation;
    type State = Scope;
    type Seed = A::Seed;
    type Flow = A::Flow;
}

/// Runs an action bound to `ScopedAnimal<A, ScopeState>` on `A`, by
/// composing a carrier from `A`'s state to the scope with the action's own
/// aspect.
pub struct ScopeReboundAction<A, ScopeState, ScopeCarrier, InnerAct>(PhantomData<(A, ScopeState, ScopeCarrier, InnerAct)>);

impl<A, ScopeState, ScopeCarrier, InnerAct> BoundAction<A> for ScopeReboundAction<A, ScopeState, ScopeCarrier, InnerAct> where
    A: Animal,
    ScopeState: Default + 'static,
    ScopeCarrier: Aspect<A::State, Focus = ScopeState>,
    InnerAct: BoundAction<ScopedAnimal<A, ScopeState>>,
 {
    type Effect = <InnerAct as BoundAction<ScopedAnimal<A, ScopeState>>>::Effect;
    type Aspect = ComposeCarrier<ScopeCarrier, <InnerAct as BoundAction<ScopedAnimal<A, ScopeState>>>::Aspect>;
    type Input = <InnerAct as BoundAction<ScopedAnimal<A, ScopeState>>>::Input;
    type Output = <InnerAct as BoundAction<ScopedAnimal<A, ScopeState>>>::Output;
    type Carry = <InnerAct as BoundAction<ScopedAnimal<A, ScopeState>>>::Carry;

    open spec fn emit_spec(
        view: <Self::Aspect as StateCarrier<A::State>>::Focus,
        input: Self::Input,
    ) -> <Self::Effect as EffectSchema>::In {
        InnerAct::emit_spec(view, input)
    }

    fn emit(view: &<Self::Aspect as StateCarrier<A::State>>::Focus, input: Self::Input) -> (r: <Self::Effect as EffectSchema>::In) {
        <InnerAct as BoundAction<ScopedAnimal<A, ScopeState>>>::emit(view, input)
    }

    open spec fn absorb_available() -> bool {
        InnerAct::absorb_available()
    }

    open spec fn absorb_spec(
        view: <Self::Aspect as StateCarrier<A::State>>::Focus,
        output: EffectCompletion<Self::Effect>,
    ) -> (<Self::Aspect as StateCarrier<A::State>>::Focus, Result<Self::Output, Failure>) {
        InnerAct::absorb_spec(view, output)
    }

    fn absorb(
        view: &mut <Self::Aspect as StateCarrier<A::State>>::Focus,
        output: EffectCompletion<Self::Effect>,
    ) -> (r: Result<Self::Output, Failure>) {
        <InnerAct as BoundAction<ScopedAnimal<A, ScopeState>>>::absorb(view, output)
    }

    open spec fn emit_with_carry_spec(
        view: <Self::Aspect as StateCarrier<A::State>>::Focus,
        input: Self::Input,
    ) -> (<Self::Effect as EffectSchema>::In, Self::Carry) {
        InnerAct::emit_with_carry_spec(view, input)
    }

    fn emit_with_carry(view: &<Self::Aspect as StateCarrier<A::State>>::Focus, input: Self::Input) -> (r: (
        <Self::Effect as EffectSchema>::In,
        Self::Carry,
    )) {
        <InnerAct as BoundAction<ScopedAnimal<A, ScopeState>>>::emit_with_carry(view, input)
    }

    open spec fn absorb_with_carry_spec(
        view: <Self::Aspect as StateCarrier<A::State>>::Focus,
        output: EffectCompletion<Self::Effect>,
        carry: Self::Carry,
    ) -> (<Self::Aspect as StateCarrier<A::State>>::Focus, Result<Self::Output, Failure>) {
        InnerAct::absorb_with_carry_spec(view, output, carry)
    }

    fn absorb_with_carry(
        view: &mut <Self::Aspect as StateCarrier<A::State>>::Focus,
        output: EffectCompletion<Self::Effect>,
        carry: Self::Carry,
    ) -> (r: Result<Self::Output, Failure>) {
        <InnerAct as BoundAction<ScopedAnimal<A, ScopeState>>>::absorb_with_carry(view, output, carry)
    }
}

/// Forward half of a bound action: makes an effect input, and a carry,
/// from the focused state and an argument.
pub trait Emit<T: Animal> {
    type Arg;
    type Aspect: Aspect<T::State>;
    type Effect: EffectSchema;
    type Carry;

    spec fn emit_spec(
        view: <Self::Aspect as StateCarrier<T::State>>::Focus,
        input: Self::Arg,
    ) -> (<Self::Effect as EffectSchema>::In, Self::Carry);

    fn emit(view: &<Self::Aspect as StateCarrier<T::State>>::Focus, input: Self::Arg) -> (r: (
        <Self::Effect as EffectSchema>::In,
        Self::Carry,
    ))
        ensures
            r == Self::emit_spec(*view, input),
    ;
}

/// Backward half of a bound action: takes an effect completion and the
/// carry into the focused state and gives the result.
pub trait Absorb<T: Animal> {
    type Ret;
    type Aspect: Aspect<T::State>;
    type Effect: EffectSchema;
    type Carry;

    spec fn absorb_spec(
        view: <Self::Aspect as StateCarrier<T::State>>::Focus,
        output: EffectCompletion<Self::Effect>,
        carry: Self::Carry,
    ) -> (<Self::Aspect as StateCarrier<T::State>>::Focus, Result<Self::Ret, Failure>);

    fn absorb(
        view: &mut <Self::Aspect as StateCarrier<T::State>>::Focus,
        output: EffectCompletion<Self::Effect>,
        carry: Self::Carry,
    ) -> (r: Result<Self::Ret, Failure>)
        ensures
            (*final(view), r) == Self::absorb_spec(*old(view), output, carry),
    ;
}

/// Emits by handing the argument over as the effect input.
pub struct PassthroughEmit<A, Focus, In = <A as EffectSchema>::In>(PhantomData<(A, Focus, In)>);

impl<T, A, Focus, In> Emit<T> for PassthroughEmit<A, Focus, In> where
    T: Animal,
    A: EffectSchema<In = In>,
    Focus: Aspect<T::State>,
 {
    type Arg = In;
    type Aspect = Focus;
    type Effect = A;
    type Carry = ();

    open spec fn emit_spec(view: <Focus as StateCarrier<T::State>>::Focus, input: In) -> (In, ()) {
        (input, ())
    }

    fn emit(_view: &<Focus as StateCarrier<T::State>>::Focus, input: In) -> (r: (In, ())) {
        (input, ())
    }
}

/// Emits the unit input of effects whose input type is `()`.
pub struct UnitEmit<A, Focus>(PhantomData<(A, Focus)>);

impl<T, A, Focus> Emit<T> for UnitEmit<A, Focus> where
    T: Animal,
    A: EffectSchema<In = ()>,
    Focus: Aspect<T::State>,
 {
    type Arg = ();
    type Aspect = Focus;
    type Effect = A;
    type Carry = ();

    open spec fn emit_spec(view: <Focus as StateCarrier<T::State>>::Focus, input: ()) -> ((), ()) {
        ((), ())
    }

    fn emit(_view: &<Focus as StateCarrier<T::State>>::Focus, _input: ()) -> (r: ((), ())) {
        ((), ())
    }
}

/// A mapper from a view and an argument to an effect input, used by [`EmitFn`].
pub trait EmitMapper<View, A, In> where A: EffectSchema {
    spec fn map_spec(view: View, input: In) -> A::In;

    fn emit(view: &View, input: In) -> (r: A::In)
        ensures
            r == Self::map_spec(*view, input),
    ;
}

/// Emits through a mapper.
pub struct EmitFn<Focus, A, In, F>(PhantomData<(Focus, A, In, F)>);

impl<T, Focus, A, In, F> Emit<T> for EmitFn<Focus, A, In, F> where
    T: Animal,
    Focus: Aspect<T::State>,
    A: EffectSchema,
    F: EmitMapper<<Focus as StateCarrier<T::State>>::Focus, A, In>,
 {
    type Arg = In;
    type Aspect = Focus;
    type Effect = A;
    type Carry = ();

    open spec fn emit_spec(view: <Focus as StateCarrier<T::State>>::Focus, input: In) -> (A::In, ()) {
        (F::map_spec(view, input), ())
    }

    fn emit(view: &<Focus as StateCarrier<T::State>>::Focus, input: In) -> (r: (A::In, ())) {
        (<F as EmitMapper<<Focus as StateCarrier<T::State>>::Focus, A, In>>::emit(view, input), ())
    }
}

/// A mapper from a view and an effect completion to a result, used by [`AbsorbFn`].
pub trait AbsorbMapper<View, A, Out> where A: EffectSchema {
    spec fn absorb_spec(view: View, output: EffectCompletion<A>) -> (View, Result<Out, Failure>);

    fn absorb(view: &mut View, output: EffectCompletion<A>) -> (r: Result<Out, Failure>)
        ensures
            (*final(view), r) == Self::absorb_spec(*old(view), output),
    ;
}

/// Absorbs through a mapper.
pub struct AbsorbFn<Focus, A, Out, F>(PhantomData<(Focus, A, Out, F)>);

impl<T, Focus, A, Out, F> Absorb<T> for AbsorbFn<Focus, A, Out, F> where
    T: Animal,
    Focus: Aspect<T::State>,
    A: EffectSchema,
    F: AbsorbMapper<<Focus as StateCarrier<T::State>>::Focus, A, Out>,
 {
    type Ret = Out;
    type Aspect = Focus;
    type Effect = A;
    type Carry = ();

    open spec fn absorb_spec(
        view: <Focus as StateCarrier<T::State>>::Focus,
        output: EffectCompletion<A>,
        carry: (),
    ) -> (<Focus as StateCarrier<T::State>>::Focus, Result<Out, Failure>) {
        F::absorb_spec(view, output)
    }

    fn absorb(view: &mut <Focus as StateCarrier<T::State>>::Focus, output: EffectCompletion<A>, _carry: ()) -> (r: Result<
        Out,
        Failure,
    >) {
        <F as AbsorbMapper<<Focus as StateCarrier<T::State>>::Focus, A, Out>>::absorb(view, output)
    }
}

/// Combines an [`Emit`] and an [`Absorb`] over the same effect, aspect and
/// carry into a bound action, whose results pass through the carry.
pub struct Fuse<E, A>(PhantomData<(E, A)>);

impl<T, E, A> BoundAction<T> for Fuse<E, A> where
    T: Animal,
    E: Emit<T>,
    A: Absorb<T, Effect = <E as Emit<T>>::Effect, Aspect = <E as Emit<T>>::Aspect, Carry = <E as Emit<T>>::Carry>,
 {
    type Effect = <E as Emit<T>>::Effect;
    type Aspect = <E as Emit<T>>::Aspect;
    type Input = <E as Emit<T>>::Arg;
    type Output = <A as Absorb<T>>::Ret;
    type Carry = <E as Emit<T>>::Carry;

    open spec fn emit_spec(
        view: <Self::Aspect as StateCarrier<T::State>>::Focus,
        input: Self::Input,
    ) -> <Self::Effect as EffectSchema>::In {
        E::emit_spec(view, input).0
    }

    fn emit(view: &<Self::Aspect as StateCarrier<T::State>>::Focus, input: Self::Input) -> (r: <Self::Effect as EffectSchema>::In) {
        <E as Emit<T>>::emit(view, input).0
    }

    /// A fused action has no carry-free absorb.
    open spec fn absorb_available() -> bool {
        false
    }

    /// Never reached: the carry-free absorb is not available.
    open spec fn absorb_spec(
        view: <Self::Aspect as StateCarrier<T::State>>::Focus,
        output: EffectCompletion<Self::Effect>,
    ) -> (<Self::Aspect as StateCarrier<T::State>>::Focus, Result<Self::Output, Failure>) {
        arbitrary()
    }

    /// Not available: a fused action's completions go through
    /// `absorb_with_carry`. A caller outside verified code gets a failure
    /// saying so.
    fn absorb(
        _view: &mut <Self::Aspect as StateCarrier<T::State>>::Focus,
        _output: EffectCompletion<Self::Effect>,
    ) -> (r: Result<Self::Output, Failure>) {
        Err(Failure::Message(fused_absorb_text()))
    }

    open spec fn emit_with_carry_spec(
        view: <Self::Aspect as StateCarrier<T::State>>::Focus,
        input: Self::Input,
    ) -> (<Self::Effect as EffectSchema>::In, Self::Carry) {
        E::emit_spec(view, input)
    }

    fn emit_with_carry(view: &<Self::Aspect as StateCarrier<T::State>>::Focus, input: Self::Input) -> (r: (
        <Self::Effect as EffectSchema>::In,
        Self::Carry,
    )) {
        <E as Emit<T>>::emit(view, input)
    }

    open spec fn absorb_with_carry_spec(
        view: <Self::Aspect as StateCarrier<T::State>>::Focus,
        output: EffectCompletion<Self::Effect>,
        carry: Self::Carry,
    ) -> (<Self::Aspect as StateCarrier<T::State>>::Focus, Result<Self::Output, Failure>) {
        A::absorb_spec(view, output, carry)
    }

    fn absorb_with_carry(
        view: &mut <Self::Aspect as StateCarrier<T::State>>::Focus,
        output: EffectCompletion<Self::Effect>,
        carry: Self::Carry,
    ) -> (r: Result<Self::Output, Failure>) {
        <A as Absorb<T>>::absorb(view, output, carry)
    }
}

/// The text of the failure a fused action's carry-free absorb gives.
fn fused_absorb_text() -> (s: String)
    ensures
        s@ == "`absorb` is unavailable for carry-enabled fused acts; use `absorb_with_carry`."@,
{
    String::from_str("`absorb` is unavailable for carry-enabled fused acts; use `absorb_with_carry`.")
}

/// Enforces a specific aspect for an [`Emit`].
pub struct FocusedEmit<Focus, E>(PhantomData<(Focus, E)>);

impl<T, Focus, E> Emit<T> for FocusedEmit<Focus, E> where
    T: Animal,
    Focus: Aspect<T::State>,
    E: Emit<T, Aspect = Focus>,
 {
    type Arg = <E as Emit<T>>::Arg;
    type Aspect = Focus;
    type Effect = <E as Emit<T>>::Effect;
    type Carry = <E as Emit<T>>::Carry;

    open spec fn emit_spec(
        view: <Focus as StateCarrier<T::State>>::Focus,
        input: Self::Arg,
    ) -> (<Self::Effect as EffectSchema>::In, Self::Carry) {
        E::emit_spec(view, input)
    }

    fn emit(view: &<Focus as StateCarrier<T::State>>::Focus, input: Self::Arg) -> (r: (
        <Self::Effect as EffectSchema>::In,
        Self::Carry,
    )) {
        <E as Emit<T>>::emit(view, input)
    }
}

/// Enforces a specific aspect for an [`Absorb`].
pub struct FocusedAbsorb<Focus, A>(PhantomData<(Focus, A)>);

impl<T, Focus, A> Absorb<T> for FocusedAbsorb<Focus, A> where
    T: Animal,
    Focus: Aspect<T::State>,
    A: Absorb<T, Aspect = Focus>,
 {
    type Ret = <A as Absorb<T>>::Ret;
    type Aspect = Focus;
    type Effect = <A as Absorb<T>>::Effect;
    type Carry = <A as Absorb<T>>::Carry;

    open spec fn absorb_spec(
        view: <Focus as StateCarrier<T::State>>::Focus,
        output: EffectCompletion<Self::Effect>,
        carry: Self::Carry,
    ) -> (<Focus as StateCarrier<T::State>>::Focus, Result<Self::Ret, Failure>) {
        A::absorb_spec(view, output, carry)
    }

    fn absorb(
        view: &mut <Focus as StateCarrier<T::State>>::Focus,
        output: EffectCompletion<Self::Effect>,
        carry: Self::Carry,
    ) -> (r: Result<Self::Ret, Failure>) {
        <A as Absorb<T>>::absorb(view, output, carry)
    }
}

/// A primitive workflow step that adapts a bound action to the
/// request-then-completion protocol.
pub struct BoundFlowStep<T, A> where T: Animal, A: BoundAction<T> {
    marker: PhantomData<(T, A)>,
}

impl<T, A> BoundFlowStep<T, A> where T: Animal, A: BoundAction<T> {
    pub fn new() -> Self {
        BoundFlowStep { marker: PhantomData }
    }

    /// The forward half: the action emits from the focused part of `state`;
    /// gives the state, written back through the focus, the effect request
    /// and the carry.
    pub fn run(state: T::State, input: A::Input) -> (r: (
        T::State,
        (EffectRequest<<A as BoundAction<T>>::Effect>, <A as BoundAction<T>>::Carry),
    ))
        ensures
            r.0 == A::Aspect::refocus(state, A::Aspect::focus_of(state)),
            r.1.0.request_input() == A::emit_with_carry_spec(A::Aspect::focus_of(state), input).0,
            r.1.1 == A::emit_with_carry_spec(A::Aspect::focus_of(state), input).1,
    {
        let mut state = state;
        let view = <<A as BoundAction<T>>::Aspect as StateCarrier<T::State>>::focus(&mut state);
        let (effect_input, carry) = <A as BoundAction<T>>::emit_with_carry(view, input);
        (state, (EffectRequest::<<A as BoundAction<T>>::Effect>::new(effect_input), carry))
    }

    /// The backward half: the action absorbs the completion into the
    /// focused part of `state`; gives the state, written back through the
    /// focus, and the action's output. The action must succeed: its
    /// failures are the executor's to handle before this point.
    pub fn accept(
        state: T::State,
        output: EffectCompletion<<A as BoundAction<T>>::Effect>,
        carry: <A as BoundAction<T>>::Carry,
    ) -> (r: (T::State, <A as BoundAction<T>>::Output))
        requires
            A::absorb_with_carry_spec(A::Aspect::focus_of(state), output, carry).1 is Ok,
        ensures
            r.0 == A::Aspect::refocus(state, A::absorb_with_carry_spec(A::Aspect::focus_of(state), output, carry).0),
            r.1 == A::absorb_with_carry_spec(A::Aspect::focus_of(state), output, carry).1->Ok_0,
    {
        let mut state = state;
        let view = <<A as BoundAction<T>>::Aspect as StateCarrier<T::State>>::focus(&mut state);
        let emitted = <A as BoundAction<T>>::absorb_with_carry(view, output, carry);
        let emitted = emitted.expect("absorb failures must be handled by the executor");
        (state, emitted)
    }
}

/// A container for an entity within the ecosystem.
pub trait Vessel {
    /// The kind of entity this vessel holds.
    type Entity;
}

/// Built-in effect for actions that need no I/O; it takes and gives `()`.
pub struct NoEffect;

impl<J> EffectSchema<J> for NoEffect {
    type Id = Id<654>;
    type In = ();
    type Out = ();
    type Err = ();
}

/// The error of a sleep that could not complete.
#[derive(Debug, Clone)]
pub struct SleepError {
    pub message: String,
}

/// Built-in effect that waits for a duration.
pub struct Sleep;

impl<J> EffectSchema<J> for Sleep {
    type Id = Id<65535>;
    type In = std::time::Duration;
    type Out = ();
    type Err = SleepError;
}

/// The action step that sleeps for the duration it is given, on the state
/// focused by `Focus`: it emits the duration, and a sleep error becomes a
/// failure carrying its message.
pub struct SleepStep<Focus = Identity>(PhantomData<Focus>);

impl<Focus> SleepStep<Focus> {
    /// The name the step is reported under.
    pub fn name() -> (n: &'static str)
        ensures
            n@ == "SleepStep"@,
    {
        "SleepStep"
    }
}

/// A sleep's outcome as a step result.
pub open spec fn sleep_result(output: Result<(), SleepError>) -> Result<(), Failure> {
    match output {
        Ok(()) => Ok(()),
        Err(e) => Err(Failure::Message(e.message)),
    }
}

impl<T, Focus> BoundAction<T> for SleepStep<Focus> where T: Animal, Focus: Aspect<T::State> {
    type Effect = Sleep;
    type Aspect = Focus;
    type Input = std::time::Duration;
    type Output = ();
    type Carry = ();

    open spec fn emit_spec(
        view: <Focus as StateCarrier<T::State>>::Focus,
        input: std::time::Duration,
    ) -> std::time::Duration {
        input
    }

    fn emit(_view: &<Focus as StateCarrier<T::State>>::Focus, input: std::time::Duration) -> (r: std::time::Duration) {
        input
    }

    open spec fn absorb_available() -> bool {
        true
    }

    open spec fn absorb_spec(
        view: <Focus as StateCarrier<T::State>>::Focus,
        output: Result<(), SleepError>,
    ) -> (<Focus as StateCarrier<T::State>>::Focus, Result<(), Failure>) {
        (view, sleep_result(output))
    }

    fn absorb(_view: &mut <Focus as StateCarrier<T::State>>::Focus, output: Result<(), SleepError>) -> (r: Result<
        (),
        Failure,
    >) {
        match output {
            Ok(()) => Ok(()),
            Err(err) => Err(Failure::Message(err.message)),
        }
    }

    open spec fn emit_with_carry_spec(
        view: <Focus as StateCarrier<T::State>>::Focus,
        input: std::time::Duration,
    ) -> (std::time::Duration, ()) {
        (input, ())
    }

    fn emit_with_carry(_view: &<Focus as StateCarrier<T::State>>::Focus, input: std::time::Duration) -> (r: (
        std::time::Duration,
        (),
    )) {
        (input, ())
    }

    open spec fn absorb_with_carry_spec(
        view: <Focus as StateCarrier<T::State>>::Focus,
        output: Result<(), SleepError>,
        carry: (),
    ) -> (<Focus as StateCarrier<T::State>>::Focus, Result<(), Failure>) {
        (view, sleep_result(output))
    }

    fn absorb_with_carry(
        view: &mut <Focus as StateCarrier<T::State>>::Focus,
        output: Result<(), SleepError>,
        _carry: (),
    ) -> (r: Result<(), Failure>) {
        <Self as BoundAction<T>>::absorb(view, output)
    }
}

} // verus!
