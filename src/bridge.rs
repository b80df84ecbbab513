//! The engine's configuration and the requests it sends: price and balance queries,
//! swaps with their slippage bound and deadline, the token approval and the two
//! bridge transfers.
use crate::abi::{abi_call_data, call_data, comma_count, encodable, is_plain_signature_at, EthAddress};
use crate::amount::{max_value, Amount};
use crate::error::BridgeError;
use crate::pricing::{decode_amount, deadline, min_output, min_output_of, response_value};
use vstd::prelude::*;

verus! {

pub const ETH_TO_TOKEN_PRICE: &'static str = "getEthToTokenInputPrice(uint256)";

pub const TOKEN_TO_ETH_PRICE: &'static str = "getTokenToEthInputPrice(uint256)";

pub const ETH_TO_TOKEN_SWAP: &'static str = "ethToTokenSwapInput(uint256,uint256)";

pub const TOKEN_TO_ETH_SWAP: &'static str = "tokenToEthSwapInput(uint256,uint256,uint256)";

pub const TOKEN_PURCHASE_EVENT: &'static str = "TokenPurchase(address,uint256,uint256)";

pub const ETH_PURCHASE_EVENT: &'static str = "EthPurchase(address,uint256,uint256)";

pub const ALLOWANCE: &'static str = "allowance(address,address)";

pub const APPROVE: &'static str = "approve(address,uint256)";

pub const APPROVAL_EVENT: &'static str = "Approval(address,address,uint256)";

pub const TRANSFER: &'static str = "transfer(address,uint256)";

pub const BALANCE_OF: &'static str = "balanceOf(address)";

/// Gas price multiplier of a swap or an approval.
pub const SWAP_GAS_PRICE_MULTIPLIER: u64 = 2;

/// Gas limit of a swap.
pub const SWAP_GAS_LIMIT: u64 = 60_000;

/// Gas price of a transfer on the secondary chain, in wei.
pub const XDAI_GAS_PRICE: u64 = 10_000_000_000;

/// Network id of the secondary chain.
pub const XDAI_NETWORK_ID: u64 = 100;

/// Which way a swap goes.
#[derive(Clone, Copy, Debug, PartialEq, Eq)]
pub enum SwapDirection {
    /// Spend the base chain's coin, receive the token.
    EthToDai,
    /// Spend the token, receive the coin.
    DaiToEth,
}

/// The chain a transaction goes to.
#[derive(Clone, Copy, Debug, PartialEq, Eq)]
pub enum Chain {
    Eth,
    Xdai,
}

/// A read-only contract call.
#[derive(Clone, Debug, PartialEq, Eq)]
pub struct ContractCall {
    pub contract: EthAddress,
    pub data: Vec<u8>,
    pub caller: EthAddress,
}

/// A state-changing transaction, with its gas policy.
#[derive(Clone, Debug, PartialEq, Eq)]
pub struct TxRequest {
    pub chain: Chain,
    pub to: EthAddress,
    pub data: Vec<u8>,
    pub value: Amount,
    pub sender: EthAddress,
    pub gas_price_multiplier: Option<u64>,
    pub gas_limit: Option<u64>,
    pub gas_price: Option<u64>,
    pub network_id: Option<u64>,
}

/// The confirmation event to wait for: emitted by `contract`, with signature
/// `signature`, and the given first and second indexed topics where they are set.
#[derive(Clone, Copy, Debug, PartialEq, Eq)]
pub struct EventFilter {
    pub contract: EthAddress,
    pub signature: &'static str,
    pub topic1: Option<EthAddress>,
    pub topic2: Option<EthAddress>,
}

/// A swap ready to be submitted and confirmed.
#[derive(Clone, Debug, PartialEq, Eq)]
pub struct SwapPlan {
    pub tx: TxRequest,
    pub event: EventFilter,
    /// The least output the contract will accept.
    pub min_output: Amount,
    /// The chain time after which the contract rejects the swap.
    pub deadline: Amount,
    /// How long to wait for the confirmation event, in seconds.
    pub wait_seconds: u64,
}

/// An approval ready to be submitted and confirmed.
#[derive(Clone, Debug, PartialEq, Eq)]
pub struct ApprovalPlan {
    pub tx: TxRequest,
    pub event: EventFilter,
}

/// The addresses the engine works with and the nodes it talks to.
#[derive(Clone, Debug, PartialEq, Eq)]
pub struct TokenBridge {
    pub uniswap_address: EthAddress,
    /// The bridge contract on the secondary chain.
    pub xdai_home_bridge_address: EthAddress,
    /// The bridge contract on the base chain.
    pub xdai_foreign_bridge_address: EthAddress,
    /// The token contract on the base chain.
    pub foreign_dai_contract_address: EthAddress,
    /// The account that sends every transaction.
    pub own_address: EthAddress,
    pub eth_full_node_url: String,
    pub xdai_full_node_url: String,
}

pub open spec fn price_signature(direction: SwapDirection) -> Seq<char> {
    match direction {
        SwapDirection::EthToDai => ETH_TO_TOKEN_PRICE@,
        SwapDirection::DaiToEth => TOKEN_TO_ETH_PRICE@,
    }
}

pub open spec fn swap_signature(direction: SwapDirection) -> Seq<char> {
    match direction {
        SwapDirection::EthToDai => ETH_TO_TOKEN_SWAP@,
        SwapDirection::DaiToEth => TOKEN_TO_ETH_SWAP@,
    }
}

pub open spec fn purchase_event(direction: SwapDirection) -> Seq<char> {
    match direction {
        SwapDirection::EthToDai => TOKEN_PURCHASE_EVENT@,
        SwapDirection::DaiToEth => ETH_PURCHASE_EVENT@,
    }
}

/// The arguments of a swap call, all amounts: the token amount when spending the token,
/// then the bound and the deadline.
pub open spec fn swap_args(
    direction: SwapDirection,
    amount: Amount,
    min: Amount,
    deadline: Amount,
) -> Seq<Amount> {
    match direction {
        SwapDirection::EthToDai => seq![min, deadline],
        SwapDirection::DaiToEth => seq![amount, min, deadline],
    }
}

/// The encoder accepts `getEthToTokenInputPrice(uint256)` with 1 argument.
pub proof fn lemma_eth_to_token_price_encodable()
    ensures
        encodable(ETH_TO_TOKEN_PRICE@, 1),
{
    reveal_strlit("getEthToTokenInputPrice(uint256)");
    reveal_with_fuel(comma_count, 9);
    assert(is_plain_signature_at(ETH_TO_TOKEN_PRICE@, 23));
}

/// The encoder accepts `getTokenToEthInputPrice(uint256)` with 1 argument.
pub proof fn lemma_token_to_eth_price_encodable()
    ensures
        encodable(TOKEN_TO_ETH_PRICE@, 1),
{
    reveal_strlit("getTokenToEthInputPrice(uint256)");
    reveal_with_fuel(comma_count, 9);
    assert(is_plain_signature_at(TOKEN_TO_ETH_PRICE@, 23));
}

/// The encoder accepts `ethToTokenSwapInput(uint256,uint256)` with 2 arguments.
pub proof fn lemma_eth_to_token_swap_encodable()
    ensures
        encodable(ETH_TO_TOKEN_SWAP@, 2),
{
    reveal_strlit("ethToTokenSwapInput(uint256,uint256)");
    reveal_with_fuel(comma_count, 17);
    assert(is_plain_signature_at(ETH_TO_TOKEN_SWAP@, 19));
}

/// The encoder accepts `tokenToEthSwapInput(uint256,uint256,uint256)` with 3 arguments.
pub proof fn lemma_token_to_eth_swap_encodable()
    ensures
        encodable(TOKEN_TO_ETH_SWAP@, 3),
{
    reveal_strlit("tokenToEthSwapInput(uint256,uint256,uint256)");
    reveal_with_fuel(comma_count, 25);
    assert(is_plain_signature_at(TOKEN_TO_ETH_SWAP@, 19));
}

/// The encoder accepts `allowance(address,address)` with 2 arguments.
pub proof fn lemma_allowance_encodable()
    ensures
        encodable(ALLOWANCE@, 2),
{
    reveal_strlit("allowance(address,address)");
    reveal_with_fuel(comma_count, 17);
    assert(is_plain_signature_at(ALLOWANCE@, 9));
}

/// The encoder accepts `approve(address,uint256)` with 2 arguments.
pub proof fn lemma_approve_encodable()
    ensures
        encodable(APPROVE@, 2),
{
    reveal_strlit("approve(address,uint256)");
    reveal_with_fuel(comma_count, 17);
    assert(is_plain_signature_at(APPROVE@, 7));
}

/// The encoder accepts `transfer(address,uint256)` with 2 arguments.
pub proof fn lemma_transfer_encodable()
    ensures
        encodable(TRANSFER@, 2),
{
    reveal_strlit("transfer(address,uint256)");
    reveal_with_fuel(comma_count, 17);
    assert(is_plain_signature_at(TRANSFER@, 8));
}

/// The encoder accepts `balanceOf(address)` with 1 argument.
pub proof fn lemma_balance_of_encodable()
    ensures
        encodable(BALANCE_OF@, 1),
{
    reveal_strlit("balanceOf(address)");
    reveal_with_fuel(comma_count, 9);
    assert(is_plain_signature_at(BALANCE_OF@, 9));
}

impl TokenBridge {
    pub fn new(
        uniswap_address: EthAddress,
        xdai_home_bridge_address: EthAddress,
        xdai_foreign_bridge_address: EthAddress,
        foreign_dai_contract_address: EthAddress,
        own_address: EthAddress,
        eth_full_node_url: String,
        xdai_full_node_url: String,
    ) -> (r: TokenBridge)
        ensures
            r.uniswap_address == uniswap_address,
            r.xdai_home_bridge_address == xdai_home_bridge_address,
            r.xdai_foreign_bridge_address == xdai_foreign_bridge_address,
            r.foreign_dai_contract_address == foreign_dai_contract_address,
            r.own_address == own_address,
            r.eth_full_node_url@ == eth_full_node_url@,
            r.xdai_full_node_url@ == xdai_full_node_url@,
    {
        TokenBridge {
            uniswap_address,
            xdai_home_bridge_address,
            xdai_foreign_bridge_address,
            foreign_dai_contract_address,
            own_address,
            eth_full_node_url,
            xdai_full_node_url,
        }
    }

    /// The read-only call that quotes `amount` of the source asset in the other asset.
    pub fn price_call(&self, direction: SwapDirection, amount: Amount) -> (r: Result<
        ContractCall,
        BridgeError,
    >)
        ensures
            r matches Ok(c) ==> c.contract == self.uniswap_address && c.caller
                == self.own_address && c.data@ == abi_call_data(
                price_signature(direction),
                seq![],
                seq![amount],
            ),
            r is Ok,
    {
        let signature = match direction {
            SwapDirection::EthToDai => ETH_TO_TOKEN_PRICE,
            SwapDirection::DaiToEth => TOKEN_TO_ETH_PRICE,
        };
        proof {
            lemma_eth_to_token_price_encodable();
            lemma_token_to_eth_price_encodable();
        }
        let addresses: Vec<EthAddress> = Vec::new();
        let amounts = vec![amount];
        assert(addresses@ == Seq::<EthAddress>::empty());
        assert(amounts@ == seq![amount]);
        let data = call_data(signature, &addresses, &amounts)?;
        Ok(ContractCall { contract: self.uniswap_address, data, caller: self.own_address })
    }

    /// The read-only call for how much the exchange may spend of the own account's tokens.
    pub fn allowance_call(&self) -> (r: Result<ContractCall, BridgeError>)
        ensures
            r matches Ok(c) ==> c.contract == self.foreign_dai_contract_address && c.caller
                == self.own_address && c.data@ == abi_call_data(
                ALLOWANCE@,
                seq![self.own_address, self.uniswap_address],
                seq![],
            ),
            r is Ok,
    {
        proof {
            lemma_allowance_encodable();
        }
        let addresses = vec![self.own_address, self.uniswap_address];
        let amounts: Vec<Amount> = Vec::new();
        assert(addresses@ == seq![self.own_address, self.uniswap_address]);
        assert(amounts@ == Seq::<Amount>::empty());
        let data = call_data(ALLOWANCE, &addresses, &amounts)?;
        Ok(
            ContractCall {
                contract: self.foreign_dai_contract_address,
                data,
                caller: self.own_address,
            },
        )
    }

    /// The read-only call for the token balance of `address`, any account.
    pub fn balance_call(&self, address: EthAddress) -> (r: Result<ContractCall, BridgeError>)
        ensures
            r matches Ok(c) ==> c.contract == self.foreign_dai_contract_address && c.caller
                == self.own_address && c.data@ == abi_call_data(
                BALANCE_OF@,
                seq![address],
                seq![],
            ),
            r is Ok,
    {
        proof {
            lemma_balance_of_encodable();
        }
        let addresses = vec![address];
        let amounts: Vec<Amount> = Vec::new();
        assert(addresses@ == seq![address]);
        assert(amounts@ == Seq::<Amount>::empty());
        let data = call_data(BALANCE_OF, &addresses, &amounts)?;
        Ok(
            ContractCall {
                contract: self.foreign_dai_contract_address,
                data,
                caller: self.own_address,
            },
        )
    }

    /// Plans a swap of `amount` from the chain time `now` and the answer of the price
    /// call: the bound is 97.5% of the quote, the deadline `timeout` seconds after `now`,
    /// and the same `timeout` bounds the wait for the purchase event addressed to the
    /// own account. Fails with `MalformedResponse` on a short quote, then with
    /// `Overflow` where the deadline does not fit.
    pub fn swap_plan(
        &self,
        direction: SwapDirection,
        amount: Amount,
        now: &Amount,
        quote_response: &[u8],
        timeout: u64,
    ) -> (r: Result<SwapPlan, BridgeError>)
        ensures
            quote_response@.len() < 32 ==> r == Err::<SwapPlan, BridgeError>(
                BridgeError::MalformedResponse,
            ),
            quote_response@.len() >= 32 && now.value() + timeout > max_value() ==> r == Err::<
                SwapPlan,
                BridgeError,
            >(BridgeError::Overflow),
            r is Ok <==> quote_response@.len() >= 32 && now.value() + timeout <= max_value(),
            r matches Ok(p) ==> {
                &&& p.min_output.value() == min_output_of(response_value(quote_response@))
                &&& p.deadline.value() == now.value() + timeout
                &&& p.wait_seconds == timeout
                &&& p.tx.chain == Chain::Eth
                &&& p.tx.to == self.uniswap_address
                &&& p.tx.sender == self.own_address
                &&& p.tx.data@ == abi_call_data(
                    swap_signature(direction),
                    seq![],
                    swap_args(direction, amount, p.min_output, p.deadline),
                )
                &&& p.tx.value.value() == (match direction {
                    SwapDirection::EthToDai => amount.value(),
                    SwapDirection::DaiToEth => 0,
                })
                &&& p.tx.gas_price_multiplier == Some(SWAP_GAS_PRICE_MULTIPLIER)
                &&& p.tx.gas_limit == Some(SWAP_GAS_LIMIT)
                &&& p.tx.gas_price is None
                &&& p.tx.network_id is None
                &&& p.event.contract == self.uniswap_address
                &&& p.event.signature@ == purchase_event(direction)
                &&& p.event.topic1 == Some(self.own_address)
                &&& p.event.topic2 is None
            },
    {
        let quoted = decode_amount(quote_response)?;
        let min = min_output(&quoted);
        let limit = deadline(now, timeout)?;
        proof {
            lemma_eth_to_token_swap_encodable();
            lemma_token_to_eth_swap_encodable();
        }
        let (signature, args, value, event) = match direction {
            SwapDirection::EthToDai => (
                ETH_TO_TOKEN_SWAP,
                vec![min, limit],
                amount,
                TOKEN_PURCHASE_EVENT,
            ),
            SwapDirection::DaiToEth => (
                TOKEN_TO_ETH_SWAP,
                vec![amount, min, limit],
                Amount::zero(),
                ETH_PURCHASE_EVENT,
            ),
        };
        let addresses: Vec<EthAddress> = Vec::new();
        assert(addresses@ == Seq::<EthAddress>::empty());
        assert(args@ == swap_args(direction, amount, min, limit));
        let data = call_data(signature, &addresses, &args)?;
        let tx = TxRequest {
            chain: Chain::Eth,
            to: self.uniswap_address,
            data,
            value,
            sender: self.own_address,
            gas_price_multiplier: Some(SWAP_GAS_PRICE_MULTIPLIER),
            gas_limit: Some(SWAP_GAS_LIMIT),
            gas_price: None,
            network_id: None,
        };
        let event = EventFilter {
            contract: self.uniswap_address,
            signature: event,
            topic1: Some(self.own_address),
            topic2: None,
        };
        Ok(SwapPlan { tx, event, min_output: min, deadline: limit, wait_seconds: timeout })
    }

    /// Plans the approval that lets the exchange spend the largest amount of the own
    /// account's tokens, confirmed by the approval event with owner and spender set.
    /// Each call plans a fresh transaction: nothing of an earlier approval is kept.
    pub fn approval_plan(&self) -> (r: Result<ApprovalPlan, BridgeError>)
        ensures
            r is Ok,
            r matches Ok(p) ==> {
                &&& p.tx.chain == Chain::Eth
                &&& p.tx.to == self.foreign_dai_contract_address
                &&& p.tx.sender == self.own_address
                &&& exists|m: Amount|
                    m.value() == max_value() && p.tx.data@ == abi_call_data(
                        APPROVE@,
                        seq![self.uniswap_address],
                        seq![m],
                    )
                &&& p.tx.value.value() == 0
                &&& p.tx.gas_price_multiplier == Some(SWAP_GAS_PRICE_MULTIPLIER)
                &&& p.tx.gas_limit is None
                &&& p.tx.gas_price is None
                &&& p.tx.network_id is None
                &&& p.event.contract == self.foreign_dai_contract_address
                &&& p.event.signature@ == APPROVAL_EVENT@
                &&& p.event.topic1 == Some(self.own_address)
                &&& p.event.topic2 == Some(self.uniswap_address)
            },
    {
        proof {
            lemma_approve_encodable();
        }
        let max = Amount::max();
        let addresses = vec![self.uniswap_address];
        let amounts = vec![max];
        assert(addresses@ == seq![self.uniswap_address]);
        assert(amounts@ == seq![max]);
        let data = call_data(APPROVE, &addresses, &amounts)?;
        let tx = TxRequest {
            chain: Chain::Eth,
            to: self.foreign_dai_contract_address,
            data,
            value: Amount::zero(),
            sender: self.own_address,
            gas_price_multiplier: Some(SWAP_GAS_PRICE_MULTIPLIER),
            gas_limit: None,
            gas_price: None,
            network_id: None,
        };
        let event = EventFilter {
            contract: self.foreign_dai_contract_address,
            signature: APPROVAL_EVENT,
            topic1: Some(self.own_address),
            topic2: Some(self.uniswap_address),
        };
        Ok(ApprovalPlan { tx, event })
    }

    /// The transfer of `dai_amount` tokens to the bridge on the base chain. It is done
    /// once the network accepts it: the arrival on the other chain is not observed.
    pub fn dai_to_xdai_transfer(&self, dai_amount: Amount) -> (r: Result<TxRequest, BridgeError>)
        ensures
            r is Ok,
            r matches Ok(tx) ==> {
                &&& tx.chain == Chain::Eth
                &&& tx.to == self.foreign_dai_contract_address
                &&& tx.sender == self.own_address
                &&& tx.data@ == abi_call_data(
                    TRANSFER@,
                    seq![self.xdai_foreign_bridge_address],
                    seq![dai_amount],
                )
                &&& tx.value.value() == 0
                &&& tx.gas_price_multiplier is None
                &&& tx.gas_limit is None
                &&& tx.gas_price is None
                &&& tx.network_id is None
            },
    {
        proof {
            lemma_transfer_encodable();
        }
        let addresses = vec![self.xdai_foreign_bridge_address];
        let amounts = vec![dai_amount];
        assert(addresses@ == seq![self.xdai_foreign_bridge_address]);
        assert(amounts@ == seq![dai_amount]);
        let data = call_data(TRANSFER, &addresses, &amounts)?;
        Ok(
            TxRequest {
                chain: Chain::Eth,
                to: self.foreign_dai_contract_address,
                data,
                value: Amount::zero(),
                sender: self.own_address,
                gas_price_multiplier: None,
                gas_limit: None,
                gas_price: None,
                network_id: None,
            },
        )
    }

    /// The plain transfer of `xdai_amount` coins to the bridge on the secondary chain,
    /// with that chain's fixed gas price and network id. It is done once the network
    /// accepts it: the arrival on the other chain is not observed.
    pub fn xdai_to_dai_transfer(&self, xdai_amount: Amount) -> (tx: TxRequest)
        ensures
            tx.chain == Chain::Xdai,
            tx.to == self.xdai_home_bridge_address,
            tx.sender == self.own_address,
            tx.data@.len() == 0,
            tx.value == xdai_amount,
            tx.gas_price_multiplier is None,
            tx.gas_limit is None,
            tx.gas_price == Some(XDAI_GAS_PRICE),
            tx.network_id == Some(XDAI_NETWORK_ID),
    {
        TxRequest {
            chain: Chain::Xdai,
            to: self.xdai_home_bridge_address,
            data: Vec::new(),
            value: xdai_amount,
            sender: self.own_address,
            gas_price_multiplier: None,
            gas_limit: None,
            gas_price: Some(XDAI_GAS_PRICE),
            network_id: Some(XDAI_NETWORK_ID),
        }
    }
}

} // verus!
