//! The choice of a provider by configuration.
//!
//! A configuration names one kind of provider and holds what that kind
//! needs; the provider made of it answers for its kind.

use vstd::prelude::*;
use crate::address::Ipv4Address;
use crate::api::{UpdateAction, UpdateActionModel, UpdateEvent, UpdateEventModel};
use crate::cloudflare::{Cloudflare, CloudflareConfig, CloudflareConfigModel};

verus! {

/// The configuration of a provider, by kind.
#[derive(Clone, Debug, PartialEq, Eq)]
pub enum UpdateDnsConfig {
    Cloudflare(CloudflareConfig),
}

/// The model of `UpdateDnsConfig`: each string is the sequence of its characters.
pub enum ProviderModel {
    Cloudflare(CloudflareConfigModel),
}

impl DeepView for UpdateDnsConfig {
    type V = ProviderModel;

    open spec fn deep_view(&self) -> ProviderModel {
        match self {
            UpdateDnsConfig::Cloudflare(config) => ProviderModel::Cloudflare(config.deep_view()),
        }
    }
}

/// A provider of any kind, ready to use.
pub enum Provider {
    Cloudflare(Cloudflare),
}

impl DeepView for Provider {
    type V = ProviderModel;

    open spec fn deep_view(&self) -> ProviderModel {
        match self {
            Provider::Cloudflare(provider) => ProviderModel::Cloudflare(provider.deep_view()),
        }
    }
}

impl ProviderModel {
    /// The name by which the provider is logged.
    pub open spec fn description(self) -> Seq<char> {
        match self {
            ProviderModel::Cloudflare(config) => config.description(),
        }
    }

    /// What an update of `name` to `new_ip` asks for after `event`.
    pub open spec fn update_dns(
        self,
        name: Seq<char>,
        new_ip: Ipv4Address,
        event: UpdateEventModel,
    ) -> UpdateActionModel {
        match self {
            ProviderModel::Cloudflare(config) => config.update_dns(name, new_ip, event),
        }
    }
}

impl Provider {
    /// The provider of the kind that the configuration names.
    pub fn from_config(config: UpdateDnsConfig) -> (provider: Provider)
        ensures
            provider.deep_view() == config.deep_view(),
    {
        match config {
            UpdateDnsConfig::Cloudflare(config) => Provider::Cloudflare(
                Cloudflare::from_config(config),
            ),
        }
    }

    /// A short name of the provider and its scope, for logs.
    pub fn describe(&self) -> (text: String)
        ensures
            text@ == self.deep_view().description(),
    {
        match self {
            Provider::Cloudflare(provider) => provider.describe(),
        }
    }

    /// Makes sure, step by step, that the record of `name` holds `new_ip`:
    /// says what the update asks for after `event`.
    pub fn update_dns(&self, name: &str, new_ip: Ipv4Address, event: UpdateEvent) -> (action:
        UpdateAction)
        ensures
            action.deep_view() == self.deep_view().update_dns(name@, new_ip, event.deep_view()),
    {
        match self {
            Provider::Cloudflare(provider) => provider.update_dns(name, new_ip, event),
        }
    }
}

} // verus!
