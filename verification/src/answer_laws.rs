//! What each system process asks of its host, and what it answers: printing, hashing,
//! verifying, telling of the block and the deploy, addresses, identities.
use vstd::prelude::*;

use crate::contract_call::CallView;
use crate::definitions::{ContextView, Handler};
use crate::errors::ErrorView;
use crate::exchange::{answers, AboutView, ActionView, HashAlgorithm, LogLevel, NoteView};
use crate::exchange::{ReplyView, SignatureAlgorithm, StepView, Stream};
use crate::par::ParView;
use crate::process_laws::run;
use crate::resume::next;
use crate::rho_type::{bool_par, bytes_of, bytes_par, deploy_id_par, deployer_id_of};
use crate::rho_type::{deployer_id_par, is_sys_auth_token, name_of, nil, number_par, string_of};
use crate::rho_type::string_par;

verus! {

// ---------------------------------------------------------------------------
// Exchanges
// ---------------------------------------------------------------------------
/// A call whose one message holds these arguments.
pub open spec fn called_with(call: CallView, args: Seq<ParView>) -> bool {
    call.messages.len() == 1 && call.messages[0].pars == args
}

/// A call has arguments exactly if it is one message, and they are what that message
/// holds; it has so many of them exactly if the message does.
pub proof fn law_the_one_message_holds_the_arguments(call: CallView, args: Seq<ParView>, n: nat)
    ensures
        call.args() == Some(args) <==> called_with(call, args),
        call.exactly(n) == Some(args) <==> called_with(call, args) && args.len() == n,
        call.args() is None <==> call.messages.len() != 1,
{
}

/// The process asks for this action.
pub open spec fn asks(s: StepView, a: ActionView) -> bool {
    s matches StepView::Perform(b, _) && b == a
}

/// The process can go on with this answer.
pub open spec fn takes(s: StepView, r: ReplyView) -> bool {
    s matches StepView::Perform(_, p) && answers(p, r)
}

/// Where the process gets to with an answer.
pub open spec fn after(urns: Map<Seq<char>, ParView>, s: StepView, r: ReplyView) -> StepView {
    match s {
        StepView::Perform(_, p) => next(urns, p, r),
        _ => s,
    }
}

/// A process is run by taking one answer after the other.
pub proof fn law_answers_are_taken_one_by_one(
    urns: Map<Seq<char>, ParView>,
    s: StepView,
    replies: Seq<ReplyView>,
)
    ensures
        replies.len() == 0 ==> run(urns, s, replies) == s,
        replies.len() > 0 ==> run(urns, s, replies) == run(
            urns,
            after(urns, s, replies[0]),
            replies.drop_first(),
        ),
{
    match s {
        StepView::Perform(_, _) => {},
        _ => {
            assert(run(urns, s, replies.drop_first()) == s);
        },
    }
}

/// The process sends this on that channel. Once it is sent, it returns the same,
/// whatever came of sending it; where it cannot be sent, it fails with the reason.
pub open spec fn sends_back(
    urns: Map<Seq<char>, ParView>,
    s: StepView,
    output: Seq<ParView>,
    ack: ParView,
) -> bool {
    &&& asks(s, ActionView::Produce { data: output, channel: ack })
    &&& forall|came: Seq<ParView>|
        takes(s, ReplyView::Produced(came)) && #[trigger] after(urns, s, ReplyView::Produced(came))
            == StepView::Finished(Ok(output))
    &&& forall|e: ErrorView|
        takes(s, ReplyView::Failed(e)) && #[trigger] after(urns, s, ReplyView::Failed(e))
            == StepView::Finished(Err(e))
}

/// The process sends this alone on that channel. Once it is sent, it returns what came
/// of sending it; where it cannot be sent, it fails with the reason.
pub open spec fn responds(
    urns: Map<Seq<char>, ParView>,
    s: StepView,
    response: ParView,
    ack: ParView,
) -> bool {
    &&& asks(s, ActionView::Produce { data: seq![response], channel: ack })
    &&& forall|came: Seq<ParView>|
        takes(s, ReplyView::Produced(came)) && #[trigger] after(urns, s, ReplyView::Produced(came))
            == StepView::Finished(Ok(came))
    &&& forall|e: ErrorView|
        takes(s, ReplyView::Failed(e)) && #[trigger] after(urns, s, ReplyView::Failed(e))
            == StepView::Finished(Err(e))
}

/// The process sends this on that channel. Once it is sent, it returns the same; where
/// it cannot be sent, it fails with the reason and with what was not sent.
pub open spec fn sends_or_keeps(
    urns: Map<Seq<char>, ParView>,
    s: StepView,
    output: Seq<ParView>,
    ack: ParView,
) -> bool {
    &&& asks(s, ActionView::Produce { data: output, channel: ack })
    &&& forall|came: Seq<ParView>|
        takes(s, ReplyView::Produced(came)) && #[trigger] after(urns, s, ReplyView::Produced(came))
            == StepView::Finished(Ok(output))
    &&& forall|e: ErrorView|
        takes(s, ReplyView::Failed(e)) && #[trigger] after(urns, s, ReplyView::Failed(e))
            == StepView::Finished(
            Err(
                ErrorView::ProduceFailureWithOutput {
                    cause: Box::new(e),
                    output_not_produced: output,
                },
            ),
        )
}

/// The process does something that is acknowledged with nothing but its being done,
/// and gets to `t`.
pub open spec fn does(
    urns: Map<Seq<char>, ParView>,
    s: StepView,
    a: ActionView,
    t: StepView,
) -> bool {
    asks(s, a) && takes(s, ReplyView::Done) && after(urns, s, ReplyView::Done) == t
}

/// The process is done, with this output.
pub open spec fn done(output: Seq<ParView>) -> StepView {
    StepView::Finished(Ok(output))
}

/// The call is refused, in these words.
pub open spec fn refuses(s: StepView, words: Seq<char>) -> bool {
    s == StepView::Finished(Err(ErrorView::IllegalArgumentError(words)))
}

// ---------------------------------------------------------------------------
// Printing
// ---------------------------------------------------------------------------
/// What is to be printed is printed, on the process's own stream, and nothing comes of
/// it.
pub proof fn law_a_message_is_printed(
    urns: Map<Seq<char>, ParView>,
    context: ContextView,
    call: CallView,
    id: Seq<char>,
    message: ParView,
)
    requires
        called_with(call, seq![message]),
    ensures
        Handler::StdOut.step(context, call, id) matches Some(s) && does(
            urns,
            s,
            ActionView::Print { stream: Stream::Output, message },
            done(Seq::empty()),
        ),
        Handler::StdErr.step(context, call, id) matches Some(s) && does(
            urns,
            s,
            ActionView::Print { stream: Stream::Errors, message },
            done(Seq::empty()),
        ),
{
}

/// What is to be printed is printed, on the process's own stream; then `Nil` is sent on
/// the channel for the acknowledgement, and returned.
pub proof fn law_a_printed_message_is_acknowledged(
    urns: Map<Seq<char>, ParView>,
    context: ContextView,
    call: CallView,
    id: Seq<char>,
    message: ParView,
    ack: ParView,
)
    requires
        called_with(call, seq![message, ack]),
    ensures
        Handler::StdOutAck.step(context, call, id) matches Some(s) && asks(
            s,
            ActionView::Print { stream: Stream::Output, message },
        ) && takes(s, ReplyView::Done) && sends_back(
            urns,
            after(urns, s, ReplyView::Done),
            seq![nil()],
            ack,
        ),
        Handler::StdErrAck.step(context, call, id) matches Some(s) && asks(
            s,
            ActionView::Print { stream: Stream::Errors, message },
        ) && takes(s, ReplyView::Done) && sends_back(
            urns,
            after(urns, s, ReplyView::Done),
            seq![nil()],
            ack,
        ),
{
}

/// Taking a message and doing nothing is just that, whatever the message holds.
pub proof fn law_dev_null_does_nothing(context: ContextView, call: CallView, id: Seq<char>)
    requires
        call.messages.len() == 1,
    ensures
        Handler::DevNull.step(context, call, id) == Some(done(Seq::empty())),
{
}

/// An abort notes its first argument, where it has one, and ends in an abort.
pub proof fn law_an_abort_notes_its_reason(
    urns: Map<Seq<char>, ParView>,
    context: ContextView,
    call: CallView,
    id: Seq<char>,
    args: Seq<ParView>,
)
    requires
        called_with(call, args),
    ensures
        Handler::Abort.step(context, call, id) matches Some(s) && if args.len() > 0 {
            does(
                urns,
                s,
                ActionView::LogAbort(args[0]),
                StepView::Finished(Err(ErrorView::UserAbortError)),
            )
        } else {
            s == StepView::Finished(Err(ErrorView::UserAbortError))
        },
{
}

// ---------------------------------------------------------------------------
// Hashing and verifying
// ---------------------------------------------------------------------------
/// Bytes are hashed with the process's own algorithm, and the hash is sent on the
/// channel and returned, whatever the hash is. What is not bytes is refused.
pub proof fn law_bytes_are_hashed(
    h: Handler,
    urns: Map<Seq<char>, ParView>,
    context: ContextView,
    call: CallView,
    id: Seq<char>,
    input: ParView,
    ack: ParView,
    hash: Seq<u8>,
)
    requires
        h == Handler::Sha256Hash || h == Handler::Keccak256Hash || h == Handler::Blake2b256Hash,
        called_with(call, seq![input, ack]),
    ensures
        ({
            let (words, algorithm) = match h {
                Handler::Sha256Hash => ("sha256Hash"@, HashAlgorithm::Sha256),
                Handler::Keccak256Hash => ("keccak256Hash"@, HashAlgorithm::Keccak256),
                _ => ("blake2b256Hash"@, HashAlgorithm::Blake2b256),
            };
            let s = h.step(context, call, id)->0;
            &&& h.step(context, call, id) is Some
            &&& match bytes_of(input) {
                Some(data) => asks(s, ActionView::Hash { algorithm, data }) && takes(
                    s,
                    ReplyView::Bytes(hash),
                ) && sends_back(
                    urns,
                    after(urns, s, ReplyView::Bytes(hash)),
                    seq![bytes_par(hash)],
                    ack,
                ),
                None => refuses(s, words),
            }
        }),
{
}

/// A signature is verified for the data and under the key that come with it, with the
/// process's own algorithm. Whether it is valid is sent on the channel and returned:
/// `true` exactly if it is. What is not bytes is refused.
pub proof fn law_a_signature_is_told_to_be_what_it_is(
    h: Handler,
    urns: Map<Seq<char>, ParView>,
    context: ContextView,
    call: CallView,
    id: Seq<char>,
    args: Seq<ParView>,
    valid: bool,
)
    requires
        h == Handler::Secp256k1Verify || h == Handler::Ed25519Verify,
        called_with(call, args),
        args.len() == 4,
    ensures
        ({
            let (words, algorithm) = match h {
                Handler::Secp256k1Verify => ("secp256k1Verify"@, SignatureAlgorithm::Secp256k1),
                _ => ("ed25519Verify"@, SignatureAlgorithm::Ed25519),
            };
            let s = h.step(context, call, id)->0;
            &&& h.step(context, call, id) is Some
            &&& match (bytes_of(args[0]), bytes_of(args[1]), bytes_of(args[2])) {
                (Some(data), Some(signature), Some(key)) => asks(
                    s,
                    ActionView::Verify { algorithm, data, signature, key },
                ) && takes(s, ReplyView::Flag(valid)) && sends_back(
                    urns,
                    after(urns, s, ReplyView::Flag(valid)),
                    seq![bool_par(valid)],
                    args[3],
                ),
                _ => refuses(s, words),
            }
        }),
{
}

// ---------------------------------------------------------------------------
// The block and the deploy
// ---------------------------------------------------------------------------
/// What is told of a block is its number, its time and the key of its sender; of a
/// deploy, its time, the identity of its deployer and its own. The blocks found invalid
/// are told as they are.
pub proof fn law_a_context_is_told(
    urns: Map<Seq<char>, ParView>,
    context: ContextView,
    call: CallView,
    id: Seq<char>,
    ack: ParView,
)
    requires
        called_with(call, seq![ack]),
    ensures
        Handler::GetBlockData.step(context, call, id) matches Some(s) && sends_back(
            urns,
            s,
            seq![
                number_par(context.block_data.block_number),
                number_par(context.block_data.time_stamp),
                bytes_par(context.block_data.sender),
            ],
            ack,
        ),
        Handler::GetDeployData.step(context, call, id) matches Some(s) && sends_back(
            urns,
            s,
            seq![
                number_par(context.deploy_data.timestamp),
                deployer_id_par(context.deploy_data.deployer_id),
                deploy_id_par(context.deploy_data.deploy_id),
            ],
            ack,
        ),
        Handler::GetInvalidBlocks.step(context, call, id) matches Some(s) && sends_back(
            urns,
            s,
            seq![context.invalid_blocks],
            ack,
        ),
{
}

// ---------------------------------------------------------------------------
// Addresses and identities
// ---------------------------------------------------------------------------
/// The process asks for this, and passes on the text that it gets, or `Nil` for none.
pub open spec fn asks_for_text(
    urns: Map<Seq<char>, ParView>,
    s: StepView,
    a: ActionView,
    text: Option<Seq<char>>,
    ack: ParView,
) -> bool {
    &&& asks(s, a)
    &&& takes(s, ReplyView::MaybeText(text))
    &&& responds(
        urns,
        after(urns, s, ReplyView::MaybeText(text)),
        match text {
            Some(t) => string_par(t),
            None => nil(),
        },
        ack,
    )
}

/// An address is checked, or that of a key, a deployer or a name is written; the text
/// that comes of it is the response, and `Nil` where none does. Where the argument is
/// not of the kind that the command is for, the response is `Nil` at once. Any other
/// command is refused.
pub proof fn law_vault_addresses(
    urns: Map<Seq<char>, ParView>,
    context: ContextView,
    call: CallView,
    id: Seq<char>,
    command: ParView,
    p: ParView,
    ack: ParView,
    text: Option<Seq<char>>,
)
    requires
        called_with(call, seq![command, p, ack]),
    ensures
        ({
            let s = Handler::VaultAddress.step(context, call, id)->0;
            &&& Handler::VaultAddress.step(context, call, id) is Some
            &&& string_of(command) == Some("validate"@) ==> match string_of(p) {
                Some(address) => asks_for_text(
                    urns,
                    s,
                    ActionView::ParseAddress(address),
                    text,
                    ack,
                ),
                None => responds(urns, s, nil(), ack),
            }
            &&& string_of(command) == Some("fromPublicKey"@) ==> match bytes_of(p) {
                Some(key) => asks_for_text(urns, s, ActionView::AddressOfKey(key), text, ack),
                None => responds(urns, s, nil(), ack),
            }
            &&& string_of(command) == Some("fromDeployerId"@) ==> match deployer_id_of(p) {
                Some(key) => asks_for_text(urns, s, ActionView::AddressOfDeployer(key), text, ack),
                None => responds(urns, s, nil(), ack),
            }
            &&& string_of(command) == Some("fromUnforgeable"@) ==> match name_of(p) {
                Some(name) => asks_for_text(urns, s, ActionView::AddressOfName(name), text, ack),
                None => responds(urns, s, nil(), ack),
            }
            &&& string_of(command) != Some("validate"@) && string_of(command) != Some(
                "fromPublicKey"@,
            ) && string_of(command) != Some("fromDeployerId"@) && string_of(command) != Some(
                "fromUnforgeable"@,
            ) ==> refuses(s, "vault_address"@)
        }),
{
    lemma_address_words();
}

/// The words for what is to be done about a vault address differ.
proof fn lemma_address_words()
    ensures
        "validate"@ != "fromPublicKey"@,
        "validate"@ != "fromDeployerId"@,
        "validate"@ != "fromUnforgeable"@,
        "fromPublicKey"@ != "fromDeployerId"@,
        "fromPublicKey"@ != "fromUnforgeable"@,
        "fromDeployerId"@ != "fromUnforgeable"@,
{
    reveal_strlit("validate");
    reveal_strlit("fromPublicKey");
    reveal_strlit("fromDeployerId");
    reveal_strlit("fromUnforgeable");
    assert("validate"@.len() == 8 && "fromPublicKey"@.len() == 13);
    assert("fromDeployerId"@.len() == 14 && "fromUnforgeable"@.len() == 15);
}

/// The response to a question for a deployer's key is that key, and `Nil` where no
/// deployer is asked for. The response to a question whether something is the system's
/// token is `true` exactly if it is. Any other question is refused.
pub proof fn law_identities_are_told(
    urns: Map<Seq<char>, ParView>,
    context: ContextView,
    call: CallView,
    id: Seq<char>,
    command: ParView,
    p: ParView,
    ack: ParView,
)
    requires
        called_with(call, seq![command, p, ack]),
    ensures
        Handler::DeployerIdOps.step(context, call, id) matches Some(s) && if string_of(command)
            == Some("pubKeyBytes"@) {
            responds(
                urns,
                s,
                match deployer_id_of(p) {
                    Some(key) => bytes_par(key),
                    None => nil(),
                },
                ack,
            )
        } else {
            refuses(s, "deployer_id_ops"@)
        },
        Handler::SysAuthTokenOps.step(context, call, id) matches Some(s) && if string_of(command)
            == Some("check"@) {
            responds(urns, s, bool_par(is_sys_auth_token(p)), ack)
        } else {
            refuses(s, "sys_auth_token_ops"@)
        },
{
}

// ---------------------------------------------------------------------------
// Calls that are refused
// ---------------------------------------------------------------------------
/// What is no call with so many arguments is refused, in these words.
pub open spec fn needs(
    s: Option<StepView>,
    call: CallView,
    n: nat,
    words: Seq<char>,
) -> bool {
    call.messages.len() != 1 || call.messages[0].pars.len() != n ==> (s matches Some(t)
        && refuses(t, words))
}

/// A call with more or fewer arguments than a process takes is refused in its name, and
/// so is what is no call. Left out are the processes that take what comes, and those that
/// say more about it.
pub proof fn law_a_wrong_number_of_arguments_is_refused(
    h: Handler,
    context: ContextView,
    call: CallView,
    id: Seq<char>,
)
    ensures
        ({
            let s = h.step(context, call, id);
            match h {
                Handler::StdOut => needs(s, call, 1, "std_out"@),
                Handler::StdOutAck => needs(s, call, 2, "std_out_ack"@),
                Handler::StdErr => needs(s, call, 1, "std_err"@),
                Handler::StdErrAck => needs(s, call, 2, "std_err_ack"@),
                Handler::VaultAddress => needs(s, call, 3, "vault_address"@),
                Handler::DeployerIdOps => needs(s, call, 3, "deployer_id_ops"@),
                Handler::RegistryOps => needs(s, call, 3, "registry_ops"@),
                Handler::RegistryOpsV1 => needs(s, call, 3, "registry_ops_v1"@),
                Handler::RegistryLookup => needs(s, call, 2, "registry_lookup"@),
                Handler::SysAuthTokenOps => needs(s, call, 3, "sys_auth_token_ops"@),
                Handler::Secp256k1Verify => needs(s, call, 4, "secp256k1Verify"@),
                Handler::Ed25519Verify => needs(s, call, 4, "ed25519Verify"@),
                Handler::Sha256Hash => needs(s, call, 2, "sha256Hash"@),
                Handler::Keccak256Hash => needs(s, call, 2, "keccak256Hash"@),
                Handler::Blake2b256Hash => needs(s, call, 2, "blake2b256Hash"@),
                Handler::GetBlockData => needs(s, call, 1, "get_block_data"@),
                Handler::GetInvalidBlocks => needs(s, call, 1, "invalid_blocks"@),
                Handler::Gpt4 => needs(s, call, 2, "gpt4"@),
                Handler::Dalle3 => needs(s, call, 2, "dalle3"@),
                Handler::TextToAudio => needs(s, call, 2, "text_to_audio"@),
                Handler::OllamaChat => needs(s, call, 3, "ollama_chat"@),
                Handler::OllamaGenerate => needs(s, call, 3, "ollama_generate"@),
                Handler::OllamaModels => needs(s, call, 1, "ollama_models"@),
                Handler::StdLog => needs(s, call, 2, "std_log"@),
                Handler::DeployerIdMake => needs(s, call, 3, "deployer_id_make"@),
                Handler::Secp256k1Sign => needs(s, call, 3, "secp256k1_sign"@),
                Handler::SysAuthTokenMake => needs(s, call, 1, "sys_auth_token_make"@),
                Handler::BlockDataSet => needs(s, call, 3, "block_data_set"@),
                Handler::CasperInvalidBlocksSet => needs(s, call, 2, "casper_invalid_blocks_set"@),
                Handler::ChromaCreateCollection => needs(s, call, 4, "chroma_create_collection"@),
                Handler::ChromaGetCollectionMeta => needs(s, call, 2, "chroma_get_collection_meta"@),
                Handler::ChromaUpsertEntries => needs(s, call, 3, "chroma_upsert_entries"@),
                Handler::ChromaQuery => needs(s, call, 3, "chroma_query"@),
                Handler::ChromaDeleteDocuments => needs(s, call, 3, "chroma_delete_documents"@),
                Handler::PettaExecute => needs(s, call, 2, "petta_execute"@),
                _ => true,
            }
        }),
{
}

/// The other processes refuse what is no call as well, but for the abort, which aborts.
/// Telling of a deploy takes one argument and says so. A notification of other than
/// three arguments is noted, with them, before it is refused; a replay is not looked
/// into.
pub proof fn law_other_calls_are_refused(
    urns: Map<Seq<char>, ParView>,
    context: ContextView,
    call: CallView,
    id: Seq<char>,
    args: Seq<ParView>,
)
    ensures
        call.messages.len() != 1 ==> (Handler::GetDeployData.step(context, call, id) matches Some(
            s,
        ) && refuses(s, "get_deploy_data: invalid contract call pattern"@)),
        called_with(call, args) && args.len() != 1 ==> (Handler::GetDeployData.step(
            context,
            call,
            id,
        ) matches Some(s) && refuses(
            s,
            "get_deploy_data expects exactly 1 argument (ack channel)"@,
        )),
        call.messages.len() != 1 ==> (Handler::DevNull.step(context, call, id) matches Some(s)
            && refuses(s, "dev_null"@)),
        call.messages.len() != 1 ==> (Handler::GrpcTell.step(context, call, id) matches Some(s)
            && refuses(s, "grpc_tell"@)),
        call.messages.len() != 1 ==> (Handler::HandleMessage.step(context, call, id) matches Some(s)
            && refuses(s, "handle_message"@)),
        call.messages.len() != 1 ==> Handler::Abort.step(context, call, id) == Some(
            StepView::Finished(Err::<Seq<ParView>, ErrorView>(ErrorView::UserAbortError)),
        ),
        called_with(call, args) && args.len() != 3 && !call.is_replay ==> (Handler::GrpcTell.step(
            context,
            call,
            id,
        ) matches Some(s) && does(
            urns,
            s,
            ActionView::Note(
                NoteView {
                    level: LogLevel::Warn,
                    text: "grpcTell: isReplay false invalid arguments (expected 3): "@,
                    about: AboutView::Args(args),
                },
            ),
            StepView::Finished(Err(ErrorView::IllegalArgumentError("grpc_tell"@))),
        )),
{
}

} // verus!
