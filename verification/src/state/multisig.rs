//! The admin multisig: a fixed set of signers collects signatures for one
//! instruction at a time, identified by the hash of its accounts and data,
//! with nonces against replay, a rate limit and an expiry for stale
//! signatures.
use vstd::prelude::*;
use crate::error::{ErrorCode, TYieldResult};
use crate::hash::{sha256, spec_sha256};
use crate::math::constants::MAX_SIGNERS;
use crate::math::safe_math::SafeMath;
use crate::pubkey::Pubkey;

verus! {

/// The admin instructions a multisig signs.
#[derive(Clone, Copy, PartialEq, Eq, Structural, Debug)]
pub enum AdminInstruction {
    UpdatePrice,
    UpdateYield,
    DeployAgent,
    AddAgent,
    BanUser,
    PermManager,
    WithdrawFees,
    OpenTrade,
}

/// The byte that tags an admin instruction (its position, from 0).
pub open spec fn instruction_tag(i: AdminInstruction) -> u8 {
    match i {
        AdminInstruction::UpdatePrice => 0,
        AdminInstruction::UpdateYield => 1,
        AdminInstruction::DeployAgent => 2,
        AdminInstruction::AddAgent => 3,
        AdminInstruction::BanUser => 4,
        AdminInstruction::PermManager => 5,
        AdminInstruction::WithdrawFees => 6,
        AdminInstruction::OpenTrade => 7,
    }
}

impl AdminInstruction {
    /// The byte that tags this instruction.
    pub fn tag(&self) -> (r: u8)
        ensures
            r == instruction_tag(*self),
    {
        match self {
            AdminInstruction::UpdatePrice => 0,
            AdminInstruction::UpdateYield => 1,
            AdminInstruction::DeployAgent => 2,
            AdminInstruction::AddAgent => 3,
            AdminInstruction::BanUser => 4,
            AdminInstruction::PermManager => 5,
            AdminInstruction::WithdrawFees => 6,
            AdminInstruction::OpenTrade => 7,
        }
    }
}

/// An account that takes part in a signature: its key and whether it signed
/// the transaction.
#[derive(Clone, Copy, PartialEq, Eq, Structural, Debug)]
pub struct SignerInfo {
    pub key: Pubkey,
    pub is_signer: bool,
}

/// The multisig account.
#[derive(Clone, Copy, PartialEq, Eq, Debug)]
pub struct Multisig {
    pub signers: [Pubkey; 6],
    pub signer_weights: [u8; 6],
    pub instruction_hash_bytes: [u8; 32],
    pub nonce: u64,
    pub last_execution_time: i64,
    pub last_signature_time: i64,
    pub signature_timeout: i64,
    pub required_weight: u32,
    /// Signatures counted towards the rate limit.
    pub signature_count: u32,
    pub instruction_data_len: u16,
    pub num_signers: u8,
    pub num_signed: u8,
    pub min_signatures: u8,
    pub bump: u8,
    pub instruction_accounts_len: u8,
    /// 1 for each signer that signed the pending instruction.
    pub signed: [u8; 6],
    pub _padding: [u8; 2],
}

/// A multisig with its arrays read as sequences.
#[verifier::ext_equal]
pub struct MultisigView {
    pub signers: Seq<Pubkey>,
    pub signer_weights: Seq<u8>,
    pub instruction_hash_bytes: Seq<u8>,
    pub nonce: u64,
    pub last_execution_time: i64,
    pub last_signature_time: i64,
    pub signature_timeout: i64,
    pub required_weight: u32,
    pub signature_count: u32,
    pub instruction_data_len: u16,
    pub num_signers: u8,
    pub num_signed: u8,
    pub min_signatures: u8,
    pub bump: u8,
    pub instruction_accounts_len: u8,
    pub signed: Seq<u8>,
    pub padding: Seq<u8>,
}

impl View for Multisig {
    type V = MultisigView;

    open spec fn view(&self) -> MultisigView {
        MultisigView {
            signers: self.signers@,
            signer_weights: self.signer_weights@,
            instruction_hash_bytes: self.instruction_hash_bytes@,
            nonce: self.nonce,
            last_execution_time: self.last_execution_time,
            last_signature_time: self.last_signature_time,
            signature_timeout: self.signature_timeout,
            required_weight: self.required_weight,
            signature_count: self.signature_count,
            instruction_data_len: self.instruction_data_len,
            num_signers: self.num_signers,
            num_signed: self.num_signed,
            min_signatures: self.min_signatures,
            bump: self.bump,
            instruction_accounts_len: self.instruction_accounts_len,
            signed: self.signed@,
            padding: self._padding@,
        }
    }
}

/// `n` zero bytes.
pub open spec fn zeros(n: nat) -> Seq<u8> {
    Seq::new(n, |i: int| 0u8)
}

impl Default for Multisig {
    fn default() -> (r: Multisig)
        ensures
            r@ == (MultisigView {
                signers: Seq::new(6, |i: int| Pubkey::spec_default()),
                signer_weights: zeros(6),
                instruction_hash_bytes: zeros(32),
                nonce: 0,
                last_execution_time: 0,
                last_signature_time: 0,
                signature_timeout: 0,
                required_weight: 0,
                signature_count: 0,
                instruction_data_len: 0,
                num_signers: 0,
                num_signed: 0,
                min_signatures: 0,
                bump: 0,
                instruction_accounts_len: 0,
                signed: zeros(6),
                padding: zeros(2),
            }),
    {
        let k = Pubkey::default();
        let r = Multisig {
            signers: [k, k, k, k, k, k],
            signer_weights: [0;6],
            instruction_hash_bytes: [0;32],
            nonce: 0,
            last_execution_time: 0,
            last_signature_time: 0,
            signature_timeout: 0,
            required_weight: 0,
            signature_count: 0,
            instruction_data_len: 0,
            num_signers: 0,
            num_signed: 0,
            min_signatures: 0,
            bump: 0,
            instruction_accounts_len: 0,
            signed: [0;6],
            _padding: [0;2],
        };
        assert(r@ =~= (MultisigView {
            signers: Seq::new(6, |i: int| Pubkey::spec_default()),
            signer_weights: zeros(6),
            instruction_hash_bytes: zeros(32),
            nonce: 0,
            last_execution_time: 0,
            last_signature_time: 0,
            signature_timeout: 0,
            required_weight: 0,
            signature_count: 0,
            instruction_data_len: 0,
            num_signers: 0,
            num_signed: 0,
            min_signatures: 0,
            bump: 0,
            instruction_accounts_len: 0,
            signed: zeros(6),
            padding: zeros(2),
        }));
        r
    }
}

/// The first position `i >= from`, below `n`, where `signers` holds `key`.
pub open spec fn find_signer_from(signers: Seq<Pubkey>, n: int, key: Pubkey, from: int) -> Option<int>
    decreases n - from,
{
    if from >= n {
        None
    } else if signers[from] == key {
        Some(from)
    } else {
        find_signer_from(signers, n, key, from + 1)
    }
}

/// The position of `key` among the first `n` signers.
pub open spec fn find_signer(signers: Seq<Pubkey>, n: int, key: Pubkey) -> Option<int> {
    find_signer_from(signers, n, key, 0)
}

/// Whether looking `key` up stays within the six slots: either the count of
/// signers is at most six or the key is found among the six.
pub open spec fn lookup_ok(v: MultisigView, key: Pubkey) -> bool {
    v.num_signers <= MAX_SIGNERS || find_signer(v.signers, MAX_SIGNERS as int, key) is Some
}

proof fn lemma_find_signer_from(signers: Seq<Pubkey>, n: int, key: Pubkey, from: int)
    requires
        0 <= from,
    ensures
        find_signer_from(signers, n, key, from) matches Some(i) ==> from <= i < n && signers[i]
            == key,
        find_signer_from(signers, n, key, from) is None ==> forall|j: int|
            from <= j < n ==> signers[j] != key,
        forall|m: int|
            from <= m <= n && find_signer_from(signers, m, key, from) is Some ==> find_signer_from(
                signers,
                n,
                key,
                from,
            ) == find_signer_from(signers, m, key, from),
    decreases n - from,
{
    if from < n {
        lemma_find_signer_from(signers, n, key, from + 1);
        assert forall|m: int|
            from <= m <= n && find_signer_from(signers, m, key, from) is Some implies find_signer_from(
                signers,
                n,
                key,
                from,
            ) == find_signer_from(signers, m, key, from) by {
            if signers[from] != key {
                lemma_find_signer_from(signers, m, key, from + 1);
            }
        }
    }
}

/// Whether the signed flags are all 0 or 1 and as many are set, among the
/// signers, as `num_signed` says.
pub open spec fn tally_consistent(v: MultisigView) -> bool {
    &&& v.num_signers <= MAX_SIGNERS
    &&& v.signed.len() == MAX_SIGNERS
    &&& forall|i: int| 0 <= i < MAX_SIGNERS ==> (v.signed[i] == 0 || v.signed[i] == 1)
    &&& forall|i: int| v.num_signers <= i < MAX_SIGNERS ==> v.signed[i] == 0
    &&& count_signed(v.signed, v.num_signers as int) == v.num_signed
}

/// How many of the first `n` flags are 1.
pub open spec fn count_signed(signed: Seq<u8>, n: int) -> int
    decreases n,
{
    if n <= 0 {
        0
    } else {
        count_signed(signed, n - 1) + if signed[n - 1] == 1 {
            1int
        } else {
            0int
        }
    }
}

/// Sum of the weights of the first `n` signers that signed.
pub open spec fn signed_weight(signed: Seq<u8>, weights: Seq<u8>, n: int) -> int
    decreases n,
{
    if n <= 0 {
        0
    } else {
        signed_weight(signed, weights, n - 1) + if signed[n - 1] == 1 {
            weights[n - 1] as int
        } else {
            0int
        }
    }
}

/// Whether the first `n` keys are all different.
pub open spec fn keys_distinct(keys: Seq<Pubkey>, n: int) -> bool {
    forall|i: int, j: int| 0 <= i < j < n ==> keys[i] != keys[j]
}

/// Whether keys can be installed as signers: all different and none of them
/// the unset key.
pub open spec fn keys_acceptable(keys: Seq<Pubkey>) -> bool {
    &&& keys_distinct(keys, keys.len() as int)
    &&& forall|i: int| 0 <= i < keys.len() ==> keys[i] != Pubkey::spec_default()
}

/// The bytes an instruction is identified by: its account keys, then its data.
pub open spec fn instruction_bytes(keys: Seq<Pubkey>, data: Seq<u8>) -> Seq<u8>
    decreases keys.len(),
{
    if keys.len() == 0 {
        data
    } else {
        keys[0].spec_bytes() + instruction_bytes(keys.drop_first(), data)
    }
}

/// The bytes of the keys, one after the other.
pub open spec fn keys_bytes(keys: Seq<Pubkey>) -> Seq<u8>
    decreases keys.len(),
{
    if keys.len() == 0 {
        Seq::empty()
    } else {
        keys_bytes(keys.drop_last()) + keys.last().spec_bytes()
    }
}

/// What a signature does to the multisig, and what it answers: the remaining
/// signatures needed, or why it was refused. The multisig may change even
/// when the signature is refused (a default timeout is set and expired
/// signatures are cleared first).
pub open spec fn sign_step(
    v: MultisigView,
    signer: SignerInfo,
    hash: Seq<u8>,
    accounts_len: nat,
    data_len: nat,
    nonce: u64,
    now: i64,
) -> (Result<u8, ErrorCode>, MultisigView) {
    let timeout = if v.signature_timeout == 0 {
        (now + 3600) as i64
    } else {
        v.signature_timeout
    };
    let v1 = MultisigView { signature_timeout: timeout, ..v };
    if nonce <= v1.nonce {
        (Err(ErrorCode::InvalidNonce), v1)
    } else if now - v1.last_signature_time < 60 && v1.signature_count >= 3 {
        (Err(ErrorCode::RateLimitExceeded), v1)
    } else {
        let v2 = if v1.num_signed > 0 && now > timeout && timeout > 0 {
            MultisigView { num_signed: 0, signed: zeros(6), ..v1 }
        } else {
            v1
        };
        if !signer.is_signer {
            (Err(ErrorCode::MissingRequiredSignature), v2)
        } else {
            match find_signer(v2.signers, v2.num_signers as int, signer.key) {
                None => (Err(ErrorCode::MultisigAccountNotAuthorized), v2),
                Some(idx) => {
                    let count = if now - v2.last_signature_time >= 60 {
                        0u32
                    } else {
                        v2.signature_count
                    };
                    if count == u32::MAX {
                        (Err(ErrorCode::MathError), MultisigView { signature_count: count, ..v2 })
                    } else {
                        let v3 = MultisigView {
                            signature_count: (count + 1) as u32,
                            last_signature_time: now,
                            ..v2
                        };
                        if v3.num_signers <= 1 {
                            (Ok(0u8), v3)
                        } else if hash != v3.instruction_hash_bytes || accounts_len
                            != v3.instruction_accounts_len || data_len != v3.instruction_data_len {
                            let v4 = MultisigView {
                                num_signed: 1,
                                instruction_accounts_len: accounts_len as u8,
                                instruction_data_len: data_len as u16,
                                instruction_hash_bytes: hash,
                                signed: zeros(6).update(idx, 1u8),
                                nonce,
                                ..v3
                            };
                            if v3.min_signatures == 0 {
                                (Err(ErrorCode::MathError), v4)
                            } else {
                                (Ok((v3.min_signatures - 1) as u8), v4)
                            }
                        } else if v3.signed[idx] == 1 {
                            (Err(ErrorCode::MultisigAlreadySigned), v3)
                        } else if v3.num_signed < v3.min_signatures {
                            let v4 = MultisigView {
                                num_signed: (v3.num_signed + 1) as u8,
                                signed: v3.signed.update(idx, 1u8),
                                nonce,
                                ..v3
                            };
                            (Ok((v3.min_signatures - v4.num_signed) as u8), v4)
                        } else {
                            (Err(ErrorCode::MultisigAlreadyExecuted), v3)
                        }
                    }
                },
            }
        }
    }
}

/// What withdrawing a signature does: refused without the transaction's
/// signature (`MissingRequiredSignature`) and for a key that is not a signer
/// (`MultisigAccountNotAuthorized`); nothing changes for a single signer, when
/// nothing is signed, or when this signer has not signed.
pub open spec fn unsign_step(v: MultisigView, signer: SignerInfo) -> (Result<(), ErrorCode>, MultisigView) {
    if !signer.is_signer {
        (Err(ErrorCode::MissingRequiredSignature), v)
    } else if v.num_signers <= 1 || v.num_signed == 0 {
        (Ok(()), v)
    } else {
        match find_signer(v.signers, v.num_signers as int, signer.key) {
            None => (Err(ErrorCode::MultisigAccountNotAuthorized), v),
            Some(idx) => if v.signed[idx] == 0 {
                (Ok(()), v)
            } else {
                (
                    Ok(()),
                    MultisigView {
                        num_signed: (v.num_signed - 1) as u8,
                        signed: v.signed.update(idx, 0u8),
                        ..v
                    },
                )
            },
        }
    }
}

/// Whether the arithmetic of a signature stays within `i64`: the default
/// timeout and the time since the last signature.
pub open spec fn sign_time_ok(v: MultisigView, now: i64) -> bool {
    &&& v.signature_timeout == 0 ==> now + 3600 <= i64::MAX
    &&& i64::MIN <= now - v.last_signature_time <= i64::MAX
}

/// Whether two byte arrays are equal.
pub(crate) fn bytes32_equal(a: &[u8; 32], b: &[u8; 32]) -> (r: bool)
    ensures
        r == (a@ == b@),
{
    let mut i: usize = 0;
    while i < 32
        invariant
            i <= 32,
            forall|j: int| 0 <= j < i ==> a@[j] == b@[j],
        decreases 32 - i,
    {
        if a[i] != b[i] {
            return false;
        }
        i = i + 1;
    }
    assert(a@ =~= b@);
    true
}

/// Whether `set_signers` accepts these keys and minimum: one to six distinct
/// keys, none unset, and a minimum between one and their number.
pub open spec fn signers_acceptable(keys: Seq<Pubkey>, min_signatures: u8) -> bool {
    !(keys.len() == 0 || min_signatures == 0 || min_signatures > keys.len() || keys.len()
        > MAX_SIGNERS || !keys_acceptable(keys))
}

/// The multisig after `set_signers` installed `keys` with `min_signatures`:
/// everything cleared but the bump.
pub open spec fn installed_signers(v: MultisigView, keys: Seq<Pubkey>, min_signatures: u8) -> MultisigView {
    MultisigView {
        signers: keys + Seq::new(
            (MAX_SIGNERS - keys.len()) as nat,
            |i: int| Pubkey::spec_default(),
        ),
        signer_weights: Seq::new(keys.len(), |i: int| 1u8) + zeros(
            (MAX_SIGNERS - keys.len()) as nat,
        ),
        instruction_hash_bytes: zeros(32),
        nonce: 0,
        last_execution_time: 0,
        last_signature_time: 0,
        signature_timeout: 0,
        required_weight: min_signatures as u32,
        signature_count: 0,
        instruction_data_len: 0,
        num_signers: keys.len() as u8,
        num_signed: 0,
        min_signatures,
        bump: v.bump,
        instruction_accounts_len: 0,
        signed: zeros(6),
        padding: zeros(2),
    }
}

impl Multisig {
    /// Installs the signer keys: one to six distinct keys, none unset, each
    /// with weight 1, and `min_signatures` between 1 and their number. No
    /// signer or a zero minimum is `MissingRequiredSignature`; a minimum above
    /// the number of signers, more than six signers, a repeated key or the
    /// unset key is `InvalidArgument`.
    /// Everything else is cleared; the bump is kept.
    #[verifier::loop_isolation(false)]
    pub fn set_signers(&mut self, admin_signers: &[Pubkey], min_signatures: u8) -> (r: TYieldResult<()>)
        ensures
            (admin_signers@.len() == 0 || min_signatures == 0) ==> r == Err::<(), ErrorCode>(
                ErrorCode::MissingRequiredSignature,
            ) && *final(self) == *old(self),
            !(admin_signers@.len() == 0 || min_signatures == 0) && (min_signatures
                > admin_signers@.len() || admin_signers@.len() > MAX_SIGNERS || !keys_acceptable(
                admin_signers@,
            )) ==> r == Err::<(), ErrorCode>(ErrorCode::InvalidArgument) && *final(self)
                == *old(self),
            r is Ok ==> final(self)@ == installed_signers(old(self)@, admin_signers@, min_signatures),
            r is Ok <==> signers_acceptable(admin_signers@, min_signatures),
    {
        if admin_signers.len() == 0 || min_signatures == 0 {
            return Err(ErrorCode::MissingRequiredSignature);
        }
        if (min_signatures as usize) > admin_signers.len() {
            return Err(ErrorCode::InvalidArgument);
        }
        if admin_signers.len() > MAX_SIGNERS {
            return Err(ErrorCode::InvalidArgument);
        }
        let n = admin_signers.len();
        let k = Pubkey::default();
        let mut signers: [Pubkey; 6] = [k, k, k, k, k, k];
        let mut weights: [u8; 6] = [0;6];
        let mut idx: usize = 0;
        while idx < n
            invariant
                n == admin_signers@.len() <= 6,
                idx <= n,
                keys_distinct(admin_signers@, idx as int),
                forall|j: int| 0 <= j < idx ==> admin_signers@[j] != Pubkey::spec_default(),
                forall|j: int| 0 <= j < idx ==> signers@[j] == admin_signers@[j],
                forall|j: int| idx <= j < 6 ==> signers@[j] == Pubkey::spec_default(),
                forall|j: int| 0 <= j < idx ==> weights@[j] == 1u8,
                forall|j: int| idx <= j < 6 ==> weights@[j] == 0u8,
            decreases n - idx,
        {
            let key = admin_signers[idx];
            let mut j: usize = 0;
            while j < 6
                invariant
                    n <= 6,
                    idx < n,
                    j <= 6,
                    n == admin_signers@.len(),
                    key == admin_signers@[idx as int],
                    forall|m: int| 0 <= m < j ==> signers@[m] != key,
                    forall|m: int| 0 <= m < idx ==> signers@[m] == admin_signers@[m],
                    forall|m: int| idx <= m < 6 ==> signers@[m] == Pubkey::spec_default(),
            decreases 6 - j,
            {
                if signers[j] == key {
                    proof {
                        if (j as int) < idx {
                            assert(admin_signers@[j as int] == admin_signers@[idx as int]);
                        }
                    }
                    return Err(ErrorCode::InvalidArgument);
                }
                j = j + 1;
            }
            assert(signers@[idx as int] == Pubkey::spec_default());
            assert(key != Pubkey::spec_default());
            signers[idx] = key;
            weights[idx] = 1;
            idx = idx + 1;
        }
        let ghost old_bump = self.bump;
        *self = Multisig {
            num_signers: n as u8,
            num_signed: 0,
            min_signatures,
            required_weight: min_signatures as u32,
            bump: self.bump,
            instruction_accounts_len: 0,
            instruction_data_len: 0,
            instruction_hash_bytes: [0;32],
            nonce: 0,
            last_execution_time: 0,
            last_signature_time: 0,
            signature_timeout: 0,
            signature_count: 0,
            signers,
            signed: [0;6],
            signer_weights: weights,
            _padding: [0;2],
        };
        proof {
            assert(self.signers@ =~= admin_signers@ + Seq::new(
                (MAX_SIGNERS - admin_signers@.len()) as nat,
                |i: int| Pubkey::spec_default(),
            ));
            assert(self.signer_weights@ =~= Seq::new(admin_signers@.len(), |i: int| 1u8) + zeros(
                (MAX_SIGNERS - admin_signers@.len()) as nat,
            ));
            assert(self.instruction_hash_bytes@ =~= zeros(32));
            assert(self.signed@ =~= zeros(6));
            assert(self._padding@ =~= zeros(2));
        }
        Ok(())
    }
}

impl Multisig {
    /// Adds the signature of `signer` to the instruction made of
    /// `instruction_accounts` and `instruction_data`, and answers how many
    /// signatures it still needs (see `sign_step`).
    pub fn sign_multisig(
        &mut self,
        signer_account: &SignerInfo,
        instruction_accounts: &[Pubkey],
        instruction_data: &[u8],
        nonce: u64,
        current_time: i64,
    ) -> (r: TYieldResult<u8>)
        requires
            sign_time_ok(old(self)@, current_time),
            lookup_ok(old(self)@, signer_account.key),
        ensures
            r == sign_step(
                old(self)@,
                *signer_account,
                spec_sha256(instruction_bytes(instruction_accounts@, instruction_data@)),
                instruction_accounts@.len(),
                instruction_data@.len(),
                nonce,
                current_time,
            ).0,
            final(self)@ =~= sign_step(
                old(self)@,
                *signer_account,
                spec_sha256(instruction_bytes(instruction_accounts@, instruction_data@)),
                instruction_accounts@.len(),
                instruction_data@.len(),
                nonce,
                current_time,
            ).1,
    {
        self.set_default_timeout(current_time);
        let current_nonce = self.nonce;
        let current_signature_count = self.signature_count;
        let current_signature_timeout = self.signature_timeout;
        if nonce <= current_nonce {
            return Err(ErrorCode::InvalidNonce);
        }
        if current_time - self.last_signature_time < 60 && current_signature_count >= 3 {
            return Err(ErrorCode::RateLimitExceeded);
        }
        if self.num_signed > 0 && current_time > current_signature_timeout
            && current_signature_timeout > 0 {
            self.num_signed = 0;
            self.signed = [0;6];
            assert(self.signed@ =~= zeros(6));
        }
        if !signer_account.is_signer {
            return Err(ErrorCode::MissingRequiredSignature);
        }
        let signer_idx = match self.get_signer_index(&signer_account.key) {
            Ok(idx) => idx,
            Err(_) => {
                return Err(ErrorCode::MultisigAccountNotAuthorized);
            },
        };
        if current_time - self.last_signature_time >= 60 {
            self.signature_count = 0;
        }
        self.signature_count = self.signature_count.safe_add(1)?;
        self.last_signature_time = current_time;
        if self.num_signers <= 1 {
            return Ok(0);
        }
        let instruction_hash = Multisig::get_instruction_hash(instruction_accounts, instruction_data);
        if !bytes32_equal(&instruction_hash, &self.instruction_hash_bytes)
            || instruction_accounts.len() != self.instruction_accounts_len as usize
            || instruction_data.len() != self.instruction_data_len as usize {
            self.num_signed = 1;
            self.instruction_accounts_len = #[verifier::truncate] (instruction_accounts.len() as u8);
            self.instruction_data_len = #[verifier::truncate] (instruction_data.len() as u16);
            self.instruction_hash_bytes = instruction_hash;
            self.signed = [0;6];
            self.signed[signer_idx] = 1;
            self.nonce = nonce;
            assert(self.signed@ =~= zeros(6).update(signer_idx as int, 1u8));
            let remaining = self.min_signatures.safe_sub(1)?;
            Ok(remaining)
        } else if self.signed[signer_idx] == 1 {
            Err(ErrorCode::MultisigAlreadySigned)
        } else if self.num_signed < self.min_signatures {
            self.num_signed = self.num_signed.safe_add(1)?;
            self.signed[signer_idx] = 1;
            self.nonce = nonce;
            if self.num_signed == self.min_signatures {
                Ok(0)
            } else {
                let remaining = self.min_signatures.safe_sub(self.num_signed)?;
                Ok(remaining)
            }
        } else {
            Err(ErrorCode::MultisigAlreadyExecuted)
        }
    }

    /// Withdraws the signature of `signer` (see `unsign_step`).
    pub fn unsign_multisig(&mut self, signer_account: &SignerInfo) -> (r: TYieldResult<()>)
        requires
            lookup_ok(old(self)@, signer_account.key),
        ensures
            r == unsign_step(old(self)@, *signer_account).0,
            final(self)@ =~= unsign_step(old(self)@, *signer_account).1,
    {
        if !signer_account.is_signer {
            return Err(ErrorCode::MissingRequiredSignature);
        }
        if self.num_signers <= 1 || self.num_signed == 0 {
            return Ok(());
        }
        let signer_idx = match self.get_signer_index(&signer_account.key) {
            Ok(idx) => idx,
            Err(_) => {
                return Err(ErrorCode::MultisigAccountNotAuthorized);
            },
        };
        if self.signed[signer_idx] == 0 {
            return Ok(());
        }
        self.num_signed = self.num_signed.safe_sub(1)?;
        self.signed[signer_idx] = 0;
        Ok(())
    }

    /// The position of `signer` among the signers; `MultisigAccountNotAuthorized`
    /// when it is not one of them.
    pub fn get_signer_index(&self, signer: &Pubkey) -> (r: TYieldResult<usize>)
        requires
            lookup_ok(self@, *signer),
        ensures
            r == (match find_signer(self.signers@, self.num_signers as int, *signer) {
                Some(i) => Ok(i as usize),
                None => Err(ErrorCode::MultisigAccountNotAuthorized),
            }),
            r matches Ok(i) ==> i < MAX_SIGNERS && find_signer(
                self.signers@,
                self.num_signers as int,
                *signer,
            ) == Some(i as int),
            find_signer(self.signers@, self.num_signers as int, *signer) matches Some(k) ==> 0 <= k
                < MAX_SIGNERS,
    {
        let n = self.num_signers as usize;
        let mut i: usize = 0;
        proof {
            lemma_find_signer_from(self.signers@, n as int, *signer, 0);
            lemma_find_signer_from(self.signers@, MAX_SIGNERS as int, *signer, 0);
        }
        while i < n
            invariant
                i <= n == self.num_signers,
                lookup_ok(self@, *signer),
                forall|j: int| 0 <= j < i ==> self.signers@[j] != *signer,
                find_signer(self.signers@, n as int, *signer) == find_signer_from(
                    self.signers@,
                    n as int,
                    *signer,
                    i as int,
                ),
                find_signer(self.signers@, MAX_SIGNERS as int, *signer) matches Some(k) ==> 0 <= k
                    < MAX_SIGNERS && self.signers@[k] == *signer,
                find_signer(self.signers@, MAX_SIGNERS as int, *signer) is None ==> forall|j: int|
                    0 <= j < MAX_SIGNERS ==> self.signers@[j] != *signer,
            decreases n - i,
        {
            proof {
                if n > MAX_SIGNERS {
                    let k = find_signer(self.signers@, MAX_SIGNERS as int, *signer)->Some_0;
                    assert(self.signers@[k] == *signer);
                }
            }
            if self.signers[i] == *signer {
                return Ok(i);
            }
            i = i + 1;
        }
        Err(ErrorCode::MultisigAccountNotAuthorized)
    }

    /// Whether `key` is one of the signers.
    pub fn is_signer(&self, key: &Pubkey) -> (r: TYieldResult<bool>)
        requires
            lookup_ok(self@, *key),
        ensures
            r == Ok::<bool, ErrorCode>(find_signer(self.signers@, self.num_signers as int, *key) is Some),
    {
        Ok(self.get_signer_index(key).is_ok())
    }

    /// The summed weight of the signers that signed.
    pub fn get_total_weight(&self) -> (r: u32)
        requires
            self.num_signers <= MAX_SIGNERS,
        ensures
            r == signed_weight(self.signed@, self.signer_weights@, self.num_signers as int),
    {
        let n = self.num_signers as usize;
        let mut total: u32 = 0;
        let mut i: usize = 0;
        while i < n
            invariant
                i <= n <= 6,
                n == self.num_signers,
                total == signed_weight(self.signed@, self.signer_weights@, i as int),
                total <= 255 * i,
            decreases n - i,
        {
            if self.signed[i] == 1 {
                total = match total.safe_add(self.signer_weights[i] as u32) {
                    Ok(t) => t,
                    Err(_) => 0,
                };
            }
            i = i + 1;
        }
        total
    }

    /// Checks that `num_signed` counts the signers marked as signed
    /// (`InvalidState`) and that the signers are different (`DuplicateSigner`).
    pub fn validate_state(&self) -> (r: TYieldResult<()>)
        requires
            self.num_signers <= MAX_SIGNERS,
        ensures
            r == (if count_signed(self.signed@, self.num_signers as int) != self.num_signed {
                Err(ErrorCode::InvalidState)
            } else if !keys_distinct(self.signers@, self.num_signers as int) {
                Err(ErrorCode::DuplicateSigner)
            } else {
                Ok::<(), ErrorCode>(())
            }),
    {
        let n = self.num_signers as usize;
        let mut count: u8 = 0;
        let mut i: usize = 0;
        while i < n
            invariant
                i <= n <= 6,
                n == self.num_signers,
                count == count_signed(self.signed@, i as int),
                count <= i,
            decreases n - i,
        {
            if self.signed[i] == 1 {
                count = count.safe_add(1)?;
            }
            i = i + 1;
        }
        if count != self.num_signed {
            return Err(ErrorCode::InvalidState);
        }
        let mut a: usize = 0;
        while a < n
            invariant
                a <= n <= 6,
                n == self.num_signers,
                count_signed(self.signed@, n as int) == self.num_signed,
                forall|x: int, y: int| 0 <= x < y < n && x < a ==> self.signers@[x] != self.signers@[y],
            decreases n - a,
        {
            let mut b: usize = a + 1;
            while b < n
                invariant
                    a < n <= 6,
                    a + 1 <= b <= n,
                    n == self.num_signers,
                    count_signed(self.signed@, n as int) == self.num_signed,
                    forall|x: int, y: int| 0 <= x < y < n && x < a ==> self.signers@[x] != self.signers@[y],
                    forall|y: int| a < y < b ==> self.signers@[a as int] != self.signers@[y],
                decreases n - b,
            {
                if self.signers[a] == self.signers[b] {
                    return Err(ErrorCode::DuplicateSigner);
                }
                b = b + 1;
            }
            a = a + 1;
        }
        Ok(())
    }

    /// Sets a one-hour signature timeout from `current_time` when none is set.
    pub fn set_default_timeout(&mut self, current_time: i64) -> (r: TYieldResult<()>)
        requires
            old(self).signature_timeout == 0 ==> current_time + 3600 <= i64::MAX,
        ensures
            r == Ok::<(), ErrorCode>(()),
            *final(self) == (Multisig {
                signature_timeout: if old(self).signature_timeout == 0 {
                    (current_time + 3600) as i64
                } else {
                    old(self).signature_timeout
                },
                ..*old(self)
            }),
    {
        let signature_timeout = self.signature_timeout;
        if signature_timeout == 0 {
            let new_timeout = current_time + 3600;
            self.signature_timeout = new_timeout;
        }
        Ok(())
    }

    /// Sets the time after which collected signatures expire.
    pub fn set_signature_timeout(&mut self, timeout: i64) -> (r: TYieldResult<()>)
        ensures
            r == Ok::<(), ErrorCode>(()),
            *final(self) == (Multisig { signature_timeout: timeout, ..*old(self) }),
    {
        self.signature_timeout = timeout;
        Ok(())
    }

    /// Sets the weight of a signer; a position past the signers is
    /// `InvalidSignerIndex`.
    pub fn set_signer_weight(&mut self, signer_idx: usize, weight: u8) -> (r: TYieldResult<()>)
        requires
            signer_idx < old(self).num_signers ==> signer_idx < MAX_SIGNERS,
        ensures
            signer_idx >= old(self).num_signers ==> r == Err::<(), ErrorCode>(
                ErrorCode::InvalidSignerIndex,
            ) && *final(self) == *old(self),
            signer_idx < old(self).num_signers ==> r == Ok::<(), ErrorCode>(()) && final(self)@
                == (MultisigView {
                signer_weights: old(self)@.signer_weights.update(signer_idx as int, weight),
                ..old(self)@
            }),
    {
        if signer_idx >= self.num_signers as usize {
            return Err(ErrorCode::InvalidSignerIndex);
        }
        self.signer_weights[signer_idx] = weight;
        Ok(())
    }

    /// Sets the weight needed to execute.
    pub fn set_required_weight(&mut self, weight: u32) -> (r: TYieldResult<()>)
        ensures
            r == Ok::<(), ErrorCode>(()),
            *final(self) == (Multisig { required_weight: weight, ..*old(self) }),
    {
        self.required_weight = weight;
        Ok(())
    }

    /// The SHA-256 digest of the account keys followed by the data.
    pub fn get_instruction_hash(instruction_accounts: &[Pubkey], instruction_data: &[u8]) -> (r: [u8; 32])
        ensures
            r@ == spec_sha256(instruction_bytes(instruction_accounts@, instruction_data@)),
    {
        let mut data_to_hash: Vec<u8> = Vec::new();
        let mut i: usize = 0;
        while i < instruction_accounts.len()
            invariant
                i <= instruction_accounts@.len(),
                data_to_hash@ == keys_bytes(instruction_accounts@.subrange(0, i as int)),
            decreases instruction_accounts@.len() - i,
        {
            let bytes = instruction_accounts[i].to_bytes();
            let mut k: usize = 0;
            let ghost before = data_to_hash@;
            while k < 32
                invariant
                    k <= 32,
                    bytes@.len() == 32,
                    data_to_hash@ == before + bytes@.subrange(0, k as int),
                decreases 32 - k,
            {
                data_to_hash.push(bytes[k]);
                proof {
                    assert(bytes@.subrange(0, k + 1) =~= bytes@.subrange(0, k as int).push(bytes@[k as int]));
                }
                k = k + 1;
            }
            proof {
                assert(bytes@.subrange(0, 32) =~= bytes@);
                assert(instruction_accounts@.subrange(0, i + 1).drop_last() =~= instruction_accounts@.subrange(0, i as int));
            }
            i = i + 1;
        }
        let mut d: usize = 0;
        let ghost prefix = data_to_hash@;
        while d < instruction_data.len()
            invariant
                d <= instruction_data@.len(),
                data_to_hash@ == prefix + instruction_data@.subrange(0, d as int),
            decreases instruction_data@.len() - d,
        {
            data_to_hash.push(instruction_data[d]);
            proof {
                assert(instruction_data@.subrange(0, d + 1) =~= instruction_data@.subrange(0, d as int).push(instruction_data@[d as int]));
            }
            d = d + 1;
        }
        proof {
            assert(instruction_accounts@.subrange(0, instruction_accounts@.len() as int) =~= instruction_accounts@);
            assert(instruction_data@.subrange(0, instruction_data@.len() as int) =~= instruction_data@);
            lemma_instruction_bytes(instruction_accounts@, instruction_data@);
        }
        sha256(data_to_hash.as_slice())
    }

    /// The bytes a multisig signs for an admin instruction: the serialized
    /// parameters followed by the instruction's tag.
    pub fn get_instruction_data(instruction_type: AdminInstruction, params: &[u8]) -> (r: Vec<u8>)
        ensures
            r@ == params@.push(instruction_tag(instruction_type)),
    {
        let mut res: Vec<u8> = Vec::new();
        let mut i: usize = 0;
        while i < params.len()
            invariant
                i <= params@.len(),
                res@ == params@.subrange(0, i as int),
            decreases params@.len() - i,
        {
            res.push(params[i]);
            proof {
                assert(params@.subrange(0, i + 1) =~= params@.subrange(0, i as int).push(params@[i as int]));
            }
            i = i + 1;
        }
        res.push(instruction_type.tag());
        proof {
            assert(params@.subrange(0, params@.len() as int) =~= params@);
        }
        res
    }
}

/// The keys' bytes followed by the data are the instruction's bytes.
proof fn lemma_instruction_bytes(keys: Seq<Pubkey>, data: Seq<u8>)
    ensures
        keys_bytes(keys) + data == instruction_bytes(keys, data),
    decreases keys.len(),
{
    if keys.len() > 0 {
        lemma_keys_bytes_first(keys);
        lemma_instruction_bytes(keys.drop_first(), data);
        assert(keys_bytes(keys) + data =~= keys[0].spec_bytes() + (keys_bytes(keys.drop_first()) + data));
    }
}

/// The keys' bytes start with the first key's bytes.
proof fn lemma_keys_bytes_first(keys: Seq<Pubkey>)
    requires
        keys.len() > 0,
    ensures
        keys_bytes(keys) == keys[0].spec_bytes() + keys_bytes(keys.drop_first()),
    decreases keys.len(),
{
    if keys.len() == 1 {
        assert(keys.drop_last() =~= Seq::<Pubkey>::empty());
        assert(keys.drop_first() =~= Seq::<Pubkey>::empty());
        assert(keys_bytes(keys.drop_last()) =~= Seq::<u8>::empty());
        assert(keys.last() == keys[0]);
        assert(keys_bytes(keys) =~= keys[0].spec_bytes());
    } else {
        lemma_keys_bytes_first(keys.drop_last());
        assert(keys.drop_last().drop_first() =~= keys.drop_first().drop_last());
        assert(keys.drop_first().last() == keys.last());
        assert(keys_bytes(keys) =~= keys[0].spec_bytes() + keys_bytes(keys.drop_first()));
    }
}

/// Changing one flag below `n` changes the count by what that flag counted.
proof fn lemma_count_update(s: Seq<u8>, n: int, i: int, b: u8)
    requires
        0 <= i < n <= s.len(),
    ensures
        count_signed(s.update(i, b), n) == count_signed(s, n) - (if s[i] == 1 {
            1int
        } else {
            0int
        }) + (if b == 1 {
            1int
        } else {
            0int
        }),
    decreases n,
{
    if n - 1 > i {
        lemma_count_update(s, n - 1, i, b);
    } else {
        lemma_count_same(s, s.update(i, b), n - 1);
    }
}

/// The count only reads the first `n` flags.
proof fn lemma_count_same(a: Seq<u8>, b: Seq<u8>, n: int)
    requires
        0 <= n <= a.len(),
        n <= b.len(),
        forall|j: int| 0 <= j < n ==> a[j] == b[j],
    ensures
        count_signed(a, n) == count_signed(b, n),
    decreases n,
{
    if n > 0 {
        lemma_count_same(a, b, n - 1);
    }
}

/// No flag of a cleared bitmap is set.
proof fn lemma_count_zeros(n: int)
    requires
        0 <= n <= 6,
    ensures
        count_signed(zeros(6), n) == 0,
    decreases n,
{
    if n > 0 {
        lemma_count_zeros(n - 1);
    }
}

/// A signature keeps the signed flags and `num_signed` in agreement: whatever
/// it answers, the flags stay 0 or 1, only signers' flags are set, and
/// `num_signed` counts them. When it succeeds for several signers, the answer
/// is the number of signatures still missing.
pub proof fn lemma_sign_keeps_tally(
    v: MultisigView,
    signer: SignerInfo,
    hash: Seq<u8>,
    accounts_len: nat,
    data_len: nat,
    nonce: u64,
    now: i64,
)
    requires
        tally_consistent(v),
    ensures
        tally_consistent(sign_step(v, signer, hash, accounts_len, data_len, nonce, now).1),
        sign_step(v, signer, hash, accounts_len, data_len, nonce, now).0 matches Ok(remaining)
            ==> v.num_signers > 1 ==> remaining + sign_step(
            v,
            signer,
            hash,
            accounts_len,
            data_len,
            nonce,
            now,
        ).1.num_signed == v.min_signatures,
{
    let timeout = if v.signature_timeout == 0 {
        (now + 3600) as i64
    } else {
        v.signature_timeout
    };
    let v1 = MultisigView { signature_timeout: timeout, ..v };
    let v2 = if v1.num_signed > 0 && now > timeout && timeout > 0 {
        MultisigView { num_signed: 0, signed: zeros(6), ..v1 }
    } else {
        v1
    };
    lemma_count_zeros(v.num_signers as int);
    assert(tally_consistent(v2));
    lemma_find_signer_from(v2.signers, v2.num_signers as int, signer.key, 0);
    match find_signer(v2.signers, v2.num_signers as int, signer.key) {
        None => {},
        Some(idx) => {
            lemma_count_update(zeros(6), v2.num_signers as int, idx, 1u8);
            lemma_count_update(v2.signed, v2.num_signers as int, idx, 1u8);
        },
    }
}

/// One signature never approves a new instruction on its own when the
/// multisig has several signers and needs at least two signatures: the
/// answer is an error or a positive number of signatures still missing.
pub proof fn lemma_first_signature_not_enough(
    v: MultisigView,
    signer: SignerInfo,
    hash: Seq<u8>,
    accounts_len: nat,
    data_len: nat,
    nonce: u64,
    now: i64,
)
    requires
        v.num_signers > 1,
        v.min_signatures > 1,
        hash != v.instruction_hash_bytes || accounts_len != v.instruction_accounts_len || data_len
            != v.instruction_data_len,
    ensures
        sign_step(v, signer, hash, accounts_len, data_len, nonce, now).0 != Ok::<u8, ErrorCode>(0),
{
}

/// Withdrawing a signature keeps the signed flags and `num_signed` in
/// agreement.
pub proof fn lemma_unsign_keeps_tally(v: MultisigView, signer: SignerInfo)
    requires
        tally_consistent(v),
    ensures
        tally_consistent(unsign_step(v, signer).1),
{
    lemma_find_signer_from(v.signers, v.num_signers as int, signer.key, 0);
    match find_signer(v.signers, v.num_signers as int, signer.key) {
        None => {},
        Some(idx) => {
            lemma_count_update(v.signed, v.num_signers as int, idx, 0u8);
        },
    }
}

/// A nonce that is not above the last one used is refused, and the only
/// change is a default timeout.
pub proof fn lemma_stale_nonce_refused(
    v: MultisigView,
    signer: SignerInfo,
    hash: Seq<u8>,
    accounts_len: nat,
    data_len: nat,
    nonce: u64,
    now: i64,
)
    requires
        nonce <= v.nonce,
    ensures
        sign_step(v, signer, hash, accounts_len, data_len, nonce, now).0 == Err::<u8, ErrorCode>(
            ErrorCode::InvalidNonce,
        ),
        sign_step(v, signer, hash, accounts_len, data_len, nonce, now).1 == (MultisigView {
            signature_timeout: if v.signature_timeout == 0 {
                (now + 3600) as i64
            } else {
                v.signature_timeout
            },
            ..v
        }),
{
}

/// No signer counts twice for one instruction: once a signer's signature of
/// an instruction was accepted by a multisig of several signers, the same
/// signer signing the same instruction again, with a fresh nonce, a minute
/// later and before the signatures expire, is refused with
/// `MultisigAlreadySigned`.
pub proof fn lemma_no_double_signature(
    v: MultisigView,
    signer: SignerInfo,
    hash: Seq<u8>,
    accounts_len: nat,
    data_len: nat,
    nonce1: u64,
    now1: i64,
    nonce2: u64,
    now2: i64,
)
    requires
        1 < v.num_signers <= MAX_SIGNERS,
        v.signed.len() == MAX_SIGNERS,
        accounts_len <= u8::MAX,
        data_len <= u16::MAX,
        sign_step(v, signer, hash, accounts_len, data_len, nonce1, now1).0 is Ok,
        nonce2 > nonce1,
        now2 - now1 >= 60,
        now2 <= sign_step(v, signer, hash, accounts_len, data_len, nonce1, now1).1.signature_timeout,
    ensures
        sign_step(
            sign_step(v, signer, hash, accounts_len, data_len, nonce1, now1).1,
            signer,
            hash,
            accounts_len,
            data_len,
            nonce2,
            now2,
        ).0 == Err::<u8, ErrorCode>(ErrorCode::MultisigAlreadySigned),
{
    let v1 = sign_step(v, signer, hash, accounts_len, data_len, nonce1, now1).1;
    lemma_find_signer_from(v.signers, v.num_signers as int, signer.key, 0);
    let idx = find_signer(v.signers, v.num_signers as int, signer.key)->Some_0;
    assert(v1.signers == v.signers && v1.num_signers == v.num_signers);
    assert(v1.nonce == nonce1);
    assert(v1.last_signature_time == now1);
    assert(v1.instruction_hash_bytes == hash);
    assert(v1.instruction_accounts_len == accounts_len);
    assert(v1.instruction_data_len == data_len);
    assert(v1.signed[idx] == 1);
    assert(v1.num_signed > 0);
}


/// A call that changes the signatures of a multisig: a signature of an
/// instruction (its hash, account count, data length, nonce and time), or a
/// withdrawn signature.
pub enum SignatureCall {
    Sign(SignerInfo, Seq<u8>, nat, nat, u64, i64),
    Unsign(SignerInfo),
}

/// The multisig after each call in turn, whatever each answered.
pub open spec fn after_calls(v: MultisigView, calls: Seq<SignatureCall>) -> MultisigView
    decreases calls.len(),
{
    if calls.len() == 0 {
        v
    } else {
        let next = match calls[0] {
            SignatureCall::Sign(signer, hash, accounts_len, data_len, nonce, now) => sign_step(
                v,
                signer,
                hash,
                accounts_len,
                data_len,
                nonce,
                now,
            ).1,
            SignatureCall::Unsign(signer) => unsign_step(v, signer).1,
        };
        after_calls(next, calls.drop_first())
    }
}

/// What `validate_state` accepts: `num_signed` counts the signed flags,
/// which belong to signers only, and the signers are different.
pub open spec fn state_valid(v: MultisigView) -> bool {
    &&& tally_consistent(v)
    &&& keys_distinct(v.signers, v.num_signers as int)
}

/// Installing acceptable signers gives a valid state.
pub proof fn lemma_installed_state_valid(v: MultisigView, keys: Seq<Pubkey>, min_signatures: u8)
    requires
        signers_acceptable(keys, min_signatures),
    ensures
        state_valid(installed_signers(v, keys, min_signatures)),
{
    let w = installed_signers(v, keys, min_signatures);
    lemma_count_zeros(keys.len() as int);
    assert forall|i: int, j: int| 0 <= i < j < keys.len() implies w.signers[i] != w.signers[j] by {
        assert(w.signers[i] == keys[i]);
        assert(w.signers[j] == keys[j]);
    }
}

/// The state stays valid through any sequence of signatures and withdrawn
/// signatures, each succeeding or failing: after `set_signers` succeeds,
/// `validate_state` accepts the multisig whatever calls follow.
pub proof fn lemma_calls_keep_state_valid(v: MultisigView, calls: Seq<SignatureCall>)
    requires
        state_valid(v),
    ensures
        state_valid(after_calls(v, calls)),
    decreases calls.len(),
{
    if calls.len() > 0 {
        let next = match calls[0] {
            SignatureCall::Sign(signer, hash, accounts_len, data_len, nonce, now) => {
                lemma_sign_keeps_tally(v, signer, hash, accounts_len, data_len, nonce, now);
                sign_step(v, signer, hash, accounts_len, data_len, nonce, now).1
            },
            SignatureCall::Unsign(signer) => {
                lemma_unsign_keeps_tally(v, signer);
                unsign_step(v, signer).1
            },
        };
        assert(next.signers == v.signers && next.num_signers == v.num_signers);
        lemma_calls_keep_state_valid(next, calls.drop_first());
    }
}

} // verus!
