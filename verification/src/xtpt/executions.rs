use vstd::prelude::*;
use vstd::string::*;
use crate::common::{
    committed,
    plain_call,
    Call,
    CallModel,
    ContractResult,
    Env,
    MessageInfo,
    Response,
    ResponseModel,
    SubMsg,
};
use crate::errors::{missing, unauthorized, ContractError, ErrorModel, Kind, StdError};
use crate::store::text_of;
use crate::utils::{decimal_text, make_response, u128_to_string};
use crate::xtpt::state::{Config, ConfigModel, Storage, StorageModel};

verus! {

/// One attribute that says that a setting was changed, if it was.
pub open spec fn changed(name: Seq<char>, value: Option<Seq<char>>) -> Seq<(Seq<char>, Seq<char>)> {
    if value is Some {
        seq![(name, "true"@)]
    } else {
        Seq::empty()
    }
}

/// Changing who runs the token: only the one who runs it may. A new
/// admin is nominated and has to approve; a new governance contract takes
/// over at once.
pub open spec fn update_config_spec(
    s: StorageModel,
    sender: Seq<char>,
    admin: Option<Seq<char>>,
    governance: Option<Seq<char>>,
) -> Result<(StorageModel, ResponseModel), ErrorModel> {
    match s.config {
        None => Err(missing(Kind::Config)),
        Some(config) => if config.admin != sender {
            Err(unauthorized())
        } else {
            Ok(
                (
                    StorageModel {
                        config: Some(
                            ConfigModel {
                                admin: config.admin,
                                governance: match governance {
                                    Some(g) => g,
                                    None => config.governance,
                                },
                            },
                        ),
                        admin_nominee: match admin {
                            Some(a) => Some(a),
                            None => s.admin_nominee,
                        },
                        ..s
                    },
                    ResponseModel {
                        messages: Seq::empty(),
                        attributes: seq![("action"@, "update_config"@)] + changed(
                            "is_updated_admin_nominee"@,
                            admin,
                        ) + changed("is_updated_governance"@, governance),
                    },
                ),
            )
        },
    }
}

/// Changes who runs the token.
pub fn update_config(
    storage: &mut Storage,
    _env: Env,
    info: MessageInfo,
    admin: Option<String>,
    governance: Option<String>,
) -> (r: ContractResult<Response>)
    requires
        old(storage).wf(),
    ensures
        final(storage).wf(),
        committed(
            old(storage)@,
            final(storage)@,
            r,
            update_config_spec(old(storage)@, info.sender@, text_of(admin), text_of(governance)),
        ),
{
    let mut config = match Config::load(storage) {
        Ok(c) => c,
        Err(e) => {
            return Err(ContractError::Std(e));
        },
    };
    if !config.is_admin(&info.sender) {
        return Err(ContractError::Unauthorized {  });
    }
    let mut response = make_response("update_config");
    if let Some(nominee) = &admin {
        let _saved = Config::save_admin_nominee(storage, nominee);
        response = response.add_attribute("is_updated_admin_nominee", "true");
    }
    if let Some(g) = governance {
        config.governance = g;
        response = response.add_attribute("is_updated_governance", "true");
    }
    let _saved = config.save(storage);
    assert(response@.attributes =~= update_config_spec(
        old(storage)@,
        info.sender@,
        text_of(admin),
        text_of(governance),
    )->Ok_0.1.attributes);
    Ok(response)
}

/// The nominee takes over the token: only the address that is nominated
/// may approve.
pub open spec fn approve_admin_nominee_spec(s: StorageModel, sender: Seq<char>) -> Result<
    (StorageModel, ResponseModel),
    ErrorModel,
> {
    match s.admin_nominee {
        None => Err(unauthorized()),
        Some(nominee) => if nominee != sender {
            Err(ErrorModel::Text("It is not admin nominee"@))
        } else {
            match s.config {
                None => Err(missing(Kind::Config)),
                Some(config) => Ok(
                    (
                        StorageModel {
                            config: Some(ConfigModel { admin: sender, ..config }),
                            ..s
                        },
                        ResponseModel {
                            messages: Seq::empty(),
                            attributes: seq![
                                ("action"@, "approve_admin_nominee"@),
                                ("is_updated_admin"@, "true"@),
                            ],
                        },
                    ),
                ),
            }
        },
    }
}

/// Makes the nominee the one who runs the token.
pub fn approve_admin_nominee(storage: &mut Storage, _env: Env, info: MessageInfo) -> (r:
    ContractResult<Response>)
    requires
        old(storage).wf(),
    ensures
        final(storage).wf(),
        committed(
            old(storage)@,
            final(storage)@,
            r,
            approve_admin_nominee_spec(old(storage)@, info.sender@),
        ),
{
    let mut response = make_response("approve_admin_nominee");
    let nominee = match Config::may_load_admin_nominee(storage) {
        Ok(n) => n,
        Err(e) => {
            return Err(ContractError::Std(e));
        },
    };
    match nominee {
        Some(admin_nominee) => {
            if admin_nominee != info.sender {
                return Err(ContractError::Std(StdError::generic_err("It is not admin nominee")));
            }
        },
        None => {
            return Err(ContractError::Unauthorized {  });
        },
    }
    let mut config = match Config::load(storage) {
        Ok(c) => c,
        Err(e) => {
            return Err(ContractError::Std(e));
        },
    };
    config.admin = info.sender;
    response = response.add_attribute("is_updated_admin", "true");
    let _saved = config.save(storage);
    assert(response@.attributes =~= approve_admin_nominee_spec(
        old(storage)@,
        info.sender@,
    )->Ok_0.1.attributes);
    Ok(response)
}

/// What the governance contract gets when it asks for voting shares to
/// be minted: the token calls itself to mint `amount` to `recipient`.
pub open spec fn mint_spec(contract_address: Seq<char>, recipient: Seq<char>, amount: u128) -> ResponseModel {
    ResponseModel {
        messages: seq![
            plain_call(contract_address, CallModel::Mint { recipient, amount }),
        ],
        attributes: seq![("action"@, "mint"@), ("amount"@, decimal_text(amount as nat))],
    }
}

/// Asks the token itself to mint `amount` to `recipient`.
pub fn mint(env: Env, _info: MessageInfo, recipient: String, amount: u128) -> (r: ContractResult<
    Response,
>)
    ensures
        r matches Ok(response) && response@ == mint_spec(env.contract.address@, recipient@, amount),
{
    let mut response = make_response("mint");
    response = response.add_submessage(
        SubMsg::new(env.contract.address.as_str(), Call::Mint { recipient, amount }),
    );
    response = response.add_attribute("amount", u128_to_string(amount).as_str());
    assert(response@.messages =~= mint_spec(env.contract.address@, recipient@, amount).messages);
    assert(response@.attributes =~= mint_spec(
        env.contract.address@,
        recipient@,
        amount,
    ).attributes);
    Ok(response)
}

} // verus!
