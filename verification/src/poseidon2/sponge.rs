//! The Poseidon2 sponge: the rate in front, one capacity element at the end.

use crate::error::{outcome, PoseidonError};
use crate::field::{lemma_field_order, Field};
use crate::host::{
    elements, env_clone, poseidon2_permutation, poseidon2_permutation_output, rows,
    vec_get_unchecked, vec_new, vec_push_back, vec_set, HostMatrix, HostVec,
};
use crate::poseidon2::params::{
    get_m_diag, get_rc, lemma_mat_diag_len, mat_diag, round_constants, supported_width, ROUNDS_F,
    ROUNDS_P, SBOX_D,
};
use crate::uint256::{lemma_view_injective, values, Uint256};
use vstd::prelude::*;

verus! {

/// The number of capacity elements of the sponge.
pub const CAPACITY: u32 = 1;

/// The value that the capacity element starts from: the number of inputs,
/// shifted left by 64 bits. It tells apart inputs of different lengths.
pub open spec fn initialization_value(count: nat) -> nat {
    count * 0x1_0000_0000_0000_0000nat
}

/// Whether every input is below the field's modulus.
pub open spec fn in_field(field: Field, inputs: Seq<nat>) -> bool {
    forall|i: int| 0 <= i < inputs.len() ==> (#[trigger] inputs[i]) < field.spec_modulus()
}

/// The state before the permutation: the inputs, then zeros up to the rate,
/// then the initialization value in the capacity slot.
pub open spec fn absorbed_state(width: u32, inputs: Seq<nat>) -> Seq<nat> {
    Seq::new(
        width as nat,
        |i: int|
            if i < inputs.len() {
                inputs[i]
            } else if i == width - CAPACITY {
                initialization_value(inputs.len())
            } else {
                0
            },
    )
}

/// The state that the host's permutation makes of `state`, with the
/// parameters that the table has for the field and the width.
pub open spec fn permuted(field: Field, width: u32, state: Seq<nat>) -> Seq<nat> {
    poseidon2_permutation_output(
        state,
        field.spec_symbol(),
        width,
        SBOX_D,
        ROUNDS_F,
        ROUNDS_P,
        mat_diag(field, width),
        round_constants(field, width),
    )
}

/// The digest of a sequence of inputs that fits the rate: the first element
/// of the permuted state.
pub open spec fn poseidon2_digest(field: Field, width: u32, inputs: Seq<nat>) -> nat {
    permuted(field, width, absorbed_state(width, inputs))[0]
}

/// What a sponge of a supported width answers to a sequence of inputs.
pub open spec fn poseidon2_outcome(field: Field, width: u32, inputs: Seq<nat>) -> Result<
    nat,
    PoseidonError,
> {
    if inputs.len() > width - CAPACITY {
        Err(PoseidonError::InputExceedsRate)
    } else if !in_field(field, inputs) {
        Err(PoseidonError::FieldElementOutOfRange)
    } else {
        Ok(poseidon2_digest(field, width, inputs))
    }
}

/// The parameters of Poseidon2 for one field and one supported width.
#[derive(Clone, Copy, Debug)]
pub struct Poseidon2Config {
    field: Field,
    width: u32,
}

impl Poseidon2Config {
    #[verifier::type_invariant]
    spec fn well_formed(self) -> bool {
        supported_width(self.width)
    }

    /// The field.
    pub closed spec fn spec_field(self) -> Field {
        self.field
    }

    /// The width of the state.
    pub closed spec fn spec_width(self) -> u32 {
        self.width
    }

    /// The entry of the table for a field and a width: there is one for each
    /// width from 2 to 4.
    pub fn lookup(field: Field, width: u32) -> (r: Result<Poseidon2Config, PoseidonError>)
        ensures
            supported_width(width) ==> r is Ok && r->Ok_0.spec_field() == field
                && r->Ok_0.spec_width() == width,
            !supported_width(width) ==> r == Err::<Poseidon2Config, _>(
                PoseidonError::UnsupportedParameters,
            ),
    {
        if 2 <= width && width <= 4 {
            Ok(Poseidon2Config { field, width })
        } else {
            Err(PoseidonError::UnsupportedParameters)
        }
    }

    /// The field.
    pub fn field(&self) -> (field: Field)
        ensures
            field == self.spec_field(),
    {
        self.field
    }

    /// The width of the state, from 2 to 4.
    pub fn width(&self) -> (width: u32)
        ensures
            width == self.spec_width(),
            supported_width(width),
    {
        proof {
            use_type_invariant(self);
        }
        self.width
    }

    /// The number of inputs that one hash takes at most: the width less the
    /// capacity.
    pub fn rate(&self) -> (rate: u32)
        ensures
            rate == self.spec_width() - CAPACITY,
    {
        proof {
            use_type_invariant(self);
        }
        self.width - CAPACITY
    }

    /// The number of full rounds.
    pub fn rounds_f(&self) -> (n: u32)
        ensures
            n == ROUNDS_F,
    {
        ROUNDS_F
    }

    /// The number of partial rounds.
    pub fn rounds_p(&self) -> (n: u32)
        ensures
            n == ROUNDS_P,
    {
        ROUNDS_P
    }

    /// The diagonal of the internal matrix, less the identity, as a host
    /// vector made in `env`.
    pub fn get_m_diag(&self, env: &soroban_sdk::Env) -> (v: HostVec)
        ensures
            elements(v) == mat_diag(self.spec_field(), self.spec_width()),
    {
        proof {
            use_type_invariant(self);
        }
        get_m_diag(env, self.field, self.width)
    }

    /// The round constants, as a host matrix made in `env`.
    pub fn get_rc(&self, env: &soroban_sdk::Env) -> (m: HostMatrix)
        ensures
            rows(m) == round_constants(self.spec_field(), self.spec_width()),
    {
        proof {
            use_type_invariant(self);
        }
        get_rc(env, self.field, self.width)
    }
}

/// The parameters of a sponge as the host takes them.
pub(crate) struct Poseidon2Params {
    pub rounds_f: u32,
    pub rounds_p: u32,
    pub m_diag: HostVec,
    pub rc: HostMatrix,
}

/// A Poseidon2 sponge for one field and one width. It absorbs once and
/// squeezes once: every hash starts from a fresh state, and what a sponge
/// keeps between hashes is its parameters.
pub struct Poseidon2Sponge {
    env: soroban_sdk::Env,
    field: Field,
    width: u32,
    state: HostVec,
    params: Poseidon2Params,
}

impl Poseidon2Sponge {
    /// The sponge is as `new` made it and every hash leaves it: the width is
    /// supported, the state has as many elements as the width says, and the
    /// parameters are those that the table has for the field and the width.
    pub closed spec fn wf(self) -> bool {
        &&& supported_width(self.width)
        &&& elements(self.state).len() == self.width
        &&& self.params.rounds_f == ROUNDS_F
        &&& self.params.rounds_p == ROUNDS_P
        &&& elements(self.params.m_diag) == mat_diag(self.field, self.width)
        &&& rows(self.params.rc) == round_constants(self.field, self.width)
    }

    /// The field of the sponge.
    pub closed spec fn field(self) -> Field {
        self.field
    }

    /// The width of the state.
    pub closed spec fn width(self) -> u32 {
        self.width
    }

    /// The elements of the state.
    pub closed spec fn state(self) -> Seq<nat> {
        elements(self.state)
    }

    /// A sponge has a width that the table has parameters for, and a state of
    /// that many elements.
    pub proof fn lemma_width_supported(self)
        requires
            self.wf(),
        ensures
            supported_width(self.width()),
            self.state().len() == self.width(),
    {
    }

    /// A state of `width` elements: zeros, and `iv` at the end.
    fn initial_state(env: &soroban_sdk::Env, width: u32, iv: &Uint256) -> (state: HostVec)
        requires
            width >= CAPACITY,
        ensures
            elements(state) == Seq::new(
                width as nat,
                |i: int|
                    if i == width - CAPACITY {
                        iv@
                    } else {
                        0nat
                    },
            ),
    {
        let mut state = vec_new(env);
        let zero = Uint256::from_u32(0);
        let rate = width - CAPACITY;
        let mut i: u32 = 0;
        while i < rate
            invariant
                i <= rate,
                zero@ == 0,
                elements(state) == Seq::new(i as nat, |k: int| 0nat),
            decreases rate - i,
        {
            vec_push_back(&mut state, &zero);
            i += 1;
            assert(elements(state) =~= Seq::new(i as nat, |k: int| 0nat));
        }
        vec_push_back(&mut state, iv);
        assert(elements(state) =~= Seq::new(
            width as nat,
            |i: int|
                if i == width - CAPACITY {
                    iv@
                } else {
                    0nat
                },
        ));
        state
    }

    /// Sets the rate to zeros and the capacity element to `iv`.
    pub fn reset_state(&mut self, iv: &Uint256)
        requires
            old(self).wf(),
        ensures
            final(self).wf(),
            final(self).field() == old(self).field(),
            final(self).width() == old(self).width(),
            final(self).state() == Seq::new(
                old(self).width() as nat,
                |i: int|
                    if i == old(self).width() - CAPACITY {
                        iv@
                    } else {
                        0nat
                    },
            ),
    {
        self.state = Self::initial_state(&self.env, self.width, iv);
    }

    /// A sponge for a field and a width. It resolves the parameters once, for
    /// all the hashes to come; there are parameters for each width from 2 to 4.
    pub fn new(env: &soroban_sdk::Env, field: Field, width: u32) -> (r: Result<
        Poseidon2Sponge,
        PoseidonError,
    >)
        ensures
            supported_width(width) ==> r is Ok && r->Ok_0.wf() && r->Ok_0.field() == field
                && r->Ok_0.width() == width && r->Ok_0.state() == Seq::new(
                width as nat,
                |i: int| 0nat,
            ),
            !supported_width(width) ==> r is Err && r->Err_0
                == PoseidonError::UnsupportedParameters,
    {
        let config = match Poseidon2Config::lookup(field, width) {
            Ok(config) => config,
            Err(e) => {
                return Err(e);
            },
        };
        let params = Poseidon2Params {
            rounds_f: config.rounds_f(),
            rounds_p: config.rounds_p(),
            m_diag: config.get_m_diag(env),
            rc: config.get_rc(env),
        };
        let iv = Uint256::from_u32(0);
        let state = Self::initial_state(env, width, &iv);
        assert(elements(state) =~= Seq::new(width as nat, |i: int| 0nat));
        Ok(Poseidon2Sponge { env: env_clone(env), field, width, state, params })
    }

    /// Replaces the state by what the host's permutation makes of it.
    pub fn perform_duplex(&mut self)
        requires
            old(self).wf(),
        ensures
            final(self).wf(),
            final(self).field() == old(self).field(),
            final(self).width() == old(self).width(),
            final(self).state() == permuted(old(self).field(), old(self).width(), old(self).state()),
            forall|i: int|
                0 <= i < old(self).width() ==> (#[trigger] final(self).state()[i]) < old(
                    self,
                ).field().spec_modulus(),
    {
        proof {
            lemma_field_order(self.field);
            lemma_mat_diag_len(self.field, self.width);
        }
        self.state = poseidon2_permutation(
            &self.env,
            &self.state,
            self.field.symbol(),
            self.width,
            SBOX_D,
            self.params.rounds_f,
            self.params.rounds_p,
            &self.params.m_diag,
            &self.params.rc,
        );
    }

    /// Writes the inputs into the rate, from its first element on; the rest of
    /// the state stays as it is. More inputs than the rate are refused, and the
    /// state stays as it is. An input that is not below the field's modulus is
    /// refused when its turn comes, and the inputs before it are written.
    pub fn absorb(&mut self, inputs: &Vec<Uint256>) -> (r: Result<(), PoseidonError>)
        requires
            old(self).wf(),
        ensures
            final(self).wf(),
            final(self).field() == old(self).field(),
            final(self).width() == old(self).width(),
            inputs.len() > old(self).width() - CAPACITY ==> r == Err::<(), _>(
                PoseidonError::InputExceedsRate,
            ) && final(self).state() == old(self).state(),
            inputs.len() <= old(self).width() - CAPACITY && !in_field(
                old(self).field(),
                values(inputs@),
            ) ==> r == Err::<(), _>(PoseidonError::FieldElementOutOfRange) && exists|j: int|
                0 <= j < inputs.len() && #[trigger] values(inputs@)[j] >= old(
                    self,
                ).field().spec_modulus() && final(self).state() == Seq::new(
                    old(self).width() as nat,
                    |i: int|
                        if i < j {
                            inputs[i]@
                        } else {
                            old(self).state()[i]
                        },
                ),
            inputs.len() <= old(self).width() - CAPACITY && in_field(
                old(self).field(),
                values(inputs@),
            ) ==> r is Ok && final(self).state() == Seq::new(
                old(self).width() as nat,
                |i: int|
                    if i < inputs.len() {
                        inputs[i]@
                    } else {
                        old(self).state()[i]
                    },
            ),
    {
        if inputs.len() > (self.width - CAPACITY) as usize {
            return Err(PoseidonError::InputExceedsRate);
        }
        let modulus = self.field.modulus();
        let n = inputs.len() as u32;
        let mut i: u32 = 0;
        while i < n
            invariant
                i <= n,
                n == inputs.len(),
                n <= self.width - CAPACITY,
                self.wf(),
                self.field == old(self).field,
                self.width == old(self).width,
                modulus@ == self.field.spec_modulus(),
                forall|k: int| 0 <= k < i ==> (#[trigger] values(inputs@)[k]) < modulus@,
                elements(self.state) == Seq::new(
                    self.width as nat,
                    |k: int|
                        if k < i {
                            inputs[k]@
                        } else {
                            elements(old(self).state)[k]
                        },
                ),
            decreases n - i,
        {
            let v = &inputs[i as usize];
            if !v.lt(&modulus) {
                assert(values(inputs@)[i as int] >= modulus@);
                return Err(PoseidonError::FieldElementOutOfRange);
            }
            vec_set(&mut self.state, i, v);
            i += 1;
            assert(elements(self.state) =~= Seq::new(
                self.width as nat,
                |k: int|
                    if k < i {
                        inputs[k]@
                    } else {
                        elements(old(self).state)[k]
                    },
            ));
        }
        Ok(())
    }

    /// Permutes the state and returns its first element.
    pub fn squeeze(&mut self) -> (digest: Uint256)
        requires
            old(self).wf(),
        ensures
            final(self).wf(),
            final(self).field() == old(self).field(),
            final(self).width() == old(self).width(),
            final(self).state() == permuted(old(self).field(), old(self).width(), old(self).state()),
            digest@ == final(self).state()[0],
            digest@ < old(self).field().spec_modulus(),
    {
        self.perform_duplex();
        self.output()
    }

    /// The output of the sponge as it stands: the first element of the state.
    pub fn output(&self) -> (digest: Uint256)
        requires
            self.wf(),
        ensures
            digest@ == self.state()[0],
    {
        let bytes = vec_get_unchecked(&self.state, 0);
        Uint256::from_be_bytes(&bytes)
    }

    /// Hashes the inputs, from a fresh state: what came before on this sponge
    /// has no part in the digest. The inputs are at most the width less one,
    /// none is allowed too, and each is below the field's modulus. The
    /// capacity element starts from the number of inputs shifted left by 64
    /// bits. The digest is below the field's modulus, and the state is left as
    /// the permutation made it.
    pub fn compute_hash(&mut self, inputs: &Vec<Uint256>) -> (r: Result<Uint256, PoseidonError>)
        requires
            old(self).wf(),
        ensures
            final(self).wf(),
            final(self).field() == old(self).field(),
            final(self).width() == old(self).width(),
            outcome(r) == poseidon2_outcome(old(self).field(), old(self).width(), values(inputs@)),
            r is Ok ==> r->Ok_0@ < old(self).field().spec_modulus(),
            r is Ok ==> final(self).state() == permuted(
                old(self).field(),
                old(self).width(),
                absorbed_state(old(self).width(), values(inputs@)),
            ),
    {
        if inputs.len() > u32::MAX as usize {
            return Err(PoseidonError::InputExceedsRate);
        }
        let iv = Uint256::from_parts(0, 0, inputs.len() as u64, 0);
        self.reset_state(&iv);
        match self.absorb(inputs) {
            Ok(()) => {},
            Err(e) => {
                return Err(e);
            },
        }
        assert(self.state() =~= absorbed_state(self.width(), values(inputs@)));
        Ok(self.squeeze())
    }
}

/// Hashing is a function of the field, the width and the inputs: two sponges
/// of one field and width, fresh or used, give the same answer to the same
/// inputs, and so does one sponge asked twice.
pub proof fn lemma_compute_hash_deterministic(
    a: Poseidon2Sponge,
    b: Poseidon2Sponge,
    inputs_a: Seq<Uint256>,
    inputs_b: Seq<Uint256>,
    answer_a: Result<Uint256, PoseidonError>,
    answer_b: Result<Uint256, PoseidonError>,
)
    requires
        a.wf(),
        b.wf(),
        a.field() == b.field(),
        a.width() == b.width(),
        values(inputs_a) == values(inputs_b),
        outcome(answer_a) == poseidon2_outcome(a.field(), a.width(), values(inputs_a)),
        outcome(answer_b) == poseidon2_outcome(b.field(), b.width(), values(inputs_b)),
    ensures
        answer_a == answer_b,
{
    if answer_a is Ok {
        lemma_view_injective(answer_a->Ok_0, answer_b->Ok_0);
    }
}

/// As many inputs as the rate are hashed if each is below the modulus; one
/// more is refused, whatever the inputs are.
pub proof fn lemma_rate_boundary(field: Field, width: u32, inputs: Seq<nat>)
    requires
        supported_width(width),
    ensures
        inputs.len() == width - CAPACITY && in_field(field, inputs) ==> poseidon2_outcome(
            field,
            width,
            inputs,
        ) is Ok,
        inputs.len() == width ==> poseidon2_outcome(field, width, inputs) == Err::<nat, _>(
            PoseidonError::InputExceedsRate,
        ),
{
}

/// No inputs at all are hashed, whatever the field and the width.
pub proof fn lemma_empty_input_accepted(field: Field, width: u32)
    requires
        supported_width(width),
    ensures
        poseidon2_outcome(field, width, Seq::<nat>::empty()) is Ok,
{
}

/// Inputs that fit the rate are hashed if each of them is below the field's
/// modulus, and refused if one of them is not: the modulus itself is refused,
/// the modulus less one is hashed.
pub proof fn lemma_modulus_boundary(field: Field, width: u32, inputs: Seq<nat>, i: int)
    requires
        inputs.len() <= width - CAPACITY,
        0 <= i < inputs.len(),
    ensures
        inputs[i] >= field.spec_modulus() ==> poseidon2_outcome(field, width, inputs) == Err::<
            nat,
            _,
        >(PoseidonError::FieldElementOutOfRange),
        (forall|k: int| 0 <= k < inputs.len() ==> inputs[k] <= field.spec_modulus() - 1)
            ==> poseidon2_outcome(field, width, inputs) is Ok,
{
}

/// Two sequences of inputs that fit the rate and start the permutation from
/// the same state are the same sequence: the capacity element tells their
/// lengths apart, and the rate their elements.
pub proof fn lemma_absorbed_state_injective(width: u32, a: Seq<nat>, b: Seq<nat>)
    requires
        width >= CAPACITY,
        a.len() <= width - CAPACITY,
        b.len() <= width - CAPACITY,
        absorbed_state(width, a) == absorbed_state(width, b),
    ensures
        a == b,
{
    assert(absorbed_state(width, a)[width - CAPACITY] == initialization_value(a.len()));
    assert(absorbed_state(width, b)[width - CAPACITY] == initialization_value(b.len()));
    assert(a.len() == b.len());
    assert forall|i: int| 0 <= i < a.len() implies a[i] == b[i] by {
        assert(absorbed_state(width, a)[i] == a[i]);
        assert(absorbed_state(width, b)[i] == b[i]);
    }
    assert(a =~= b);
}

/// The order of the inputs reaches the permutation: inputs that read
/// differently backwards start it from another state than their reverse.
pub proof fn lemma_order_reaches_permutation(width: u32, inputs: Seq<nat>)
    requires
        width >= CAPACITY,
        inputs.len() <= width - CAPACITY,
        inputs != inputs.reverse(),
    ensures
        absorbed_state(width, inputs) != absorbed_state(width, inputs.reverse()),
{
    if absorbed_state(width, inputs) == absorbed_state(width, inputs.reverse()) {
        lemma_absorbed_state_injective(width, inputs, inputs.reverse());
    }
}

/// No inputs and one input of zero start the permutation from different
/// states: the rate is the same, the capacity element is not.
pub proof fn lemma_empty_and_zero_start_apart(width: u32)
    requires
        supported_width(width),
    ensures
        absorbed_state(width, Seq::<nat>::empty()) != absorbed_state(width, seq![0nat]),
{
    if absorbed_state(width, Seq::<nat>::empty()) == absorbed_state(width, seq![0nat]) {
        lemma_absorbed_state_injective(width, Seq::<nat>::empty(), seq![0nat]);
    }
}

} // verus!
