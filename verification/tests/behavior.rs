use jungle::{
    AbsorbFn, AbsorbMapper, Animal, BoundAction, BoundFlowStep, ComposeCarrier, EffectCompletion, EffectRequest,
    EffectSchema, Emit, EmitFn, EmitMapper, Failure, FocusedAbsorb, FocusedEmit, Fuse, Identity, NoEffect,
    PassthroughEmit, ScopeReboundAction, Sleep, SleepError, SleepStep, StateCarrier, UnitEmit,
};
use std::time::Duration;

struct Heron;

impl Animal for Heron {
    type Id = ();
    type Generation = ();
    type State = (u8, u32);
    type Seed = ();
    type Flow = ();
}

struct Second;

impl StateCarrier<(u8, u32)> for Second {
    type Focus = u32;

    fn focus_of(state: (u8, u32)) -> u32 {
        state.1
    }

    fn refocus(state: (u8, u32), focus: u32) -> (u8, u32) {
        (state.0, focus)
    }

    fn focus(state: &mut (u8, u32)) -> &mut u32 {
        &mut state.1
    }
}

struct Doubler;

impl EmitMapper<u32, Sleep, u64> for Doubler {
    fn map_spec(view: u32, input: u64) -> Duration {
        Duration::from_millis(input * 2 + view as u64)
    }

    fn emit(view: &u32, input: u64) -> Duration {
        Self::map_spec(*view, input)
    }
}

struct Counter;

impl AbsorbMapper<u32, Sleep, u32> for Counter {
    fn absorb_spec(view: u32, output: EffectCompletion<Sleep>) -> (u32, Result<u32, Failure>) {
        match output {
            Ok(()) => (view + 1, Ok(view + 1)),
            Err(e) => (view, Err(Failure::Message(e.message))),
        }
    }

    fn absorb(view: &mut u32, output: EffectCompletion<Sleep>) -> Result<u32, Failure> {
        let (next, result) = Self::absorb_spec(*view, output);
        *view = next;
        result
    }
}

type CountingSleep = Fuse<FocusedEmit<Second, EmitFn<Second, Sleep, u64, Doubler>>, FocusedAbsorb<Second, AbsorbFn<Second, Sleep, u32, Counter>>>;

#[test]
fn composed_carriers_write_through() {
    let mut state: (u8, u32) = (1, 2);
    {
        let focus = <ComposeCarrier<Identity, Second> as StateCarrier<(u8, u32)>>::focus(&mut state);
        *focus = 40;
    }
    assert_eq!(state, (1, 40));
    {
        let whole = <Identity as StateCarrier<(u8, u32)>>::focus(&mut state);
        whole.0 = 9;
    }
    assert_eq!(state, (9, 40));
}

#[test]
fn effect_requests_carry_their_input() {
    let request = EffectRequest::<Sleep>::new(Duration::from_secs(3));
    assert_eq!(request.input, Duration::from_secs(3));
    assert_eq!(request.into_input(), Duration::from_secs(3));
    let unit = EffectRequest::<NoEffect>::new(());
    assert_eq!(unit.into_input(), ());
}

#[test]
fn fused_actions_emit_and_absorb_through_the_carry() {
    let view: u32 = 5;
    assert_eq!(<CountingSleep as BoundAction<Heron>>::emit(&view, 10), Duration::from_millis(25));
    assert_eq!(<CountingSleep as BoundAction<Heron>>::emit_with_carry(&view, 1), (Duration::from_millis(7), ()));
    let mut view: u32 = 5;
    assert_eq!(<CountingSleep as BoundAction<Heron>>::absorb_with_carry(&mut view, Ok(()), ()).ok(), Some(6));
    assert_eq!(view, 6);
    let failed = <CountingSleep as BoundAction<Heron>>::absorb_with_carry(
        &mut view,
        Err(SleepError { message: "woken".to_string() }),
        (),
    );
    assert_eq!(failed.err().map(|f| f.message()), Some("woken".to_string()));
    let direct = <CountingSleep as BoundAction<Heron>>::absorb(&mut view, Ok(()));
    assert!(direct.is_err());
    assert_eq!(view, 6);
}

#[test]
fn simple_emitters_pass_their_argument() {
    let view: u32 = 0;
    let d = Duration::from_millis(8);
    assert_eq!(<PassthroughEmit<Sleep, Second> as Emit<Heron>>::emit(&view, d), (d, ()));
    assert_eq!(<UnitEmit<NoEffect, Second> as Emit<Heron>>::emit(&view, ()), ((), ()));
}

#[test]
fn bound_flow_steps_run_and_accept_on_the_focused_state() {
    let state: (u8, u32) = (1, 2);
    let (state, (request, carry)) = BoundFlowStep::<Heron, CountingSleep>::run(state, 4);
    assert_eq!(state, (1, 2));
    assert_eq!(request.into_input(), Duration::from_millis(10));
    let (state, output) = BoundFlowStep::<Heron, CountingSleep>::accept(state, Ok(()), carry);
    assert_eq!(state, (1, 3));
    assert_eq!(output, 3);
}

#[test]
fn scope_rebound_actions_focus_the_scope_first() {
    type Rebound = ScopeReboundAction<Heron, u32, Second, SleepStep<Identity>>;
    let mut view: u32 = 11;
    let d = Duration::from_millis(2);
    assert_eq!(<Rebound as BoundAction<Heron>>::emit(&view, d), d);
    assert!(<Rebound as BoundAction<Heron>>::absorb(&mut view, Ok(())).is_ok());
    let (state, (request, ())) = BoundFlowStep::<Heron, Rebound>::run((7, 11), d);
    assert_eq!(state, (7, 11));
    assert_eq!(request.into_input(), d);
}

#[test]
fn effect_schemas_name_their_types() {
    fn input_of<A: EffectSchema>(input: A::In) -> A::In {
        input
    }
    assert_eq!(input_of::<Sleep>(Duration::from_secs(1)), Duration::from_secs(1));
    input_of::<NoEffect>(());
}
