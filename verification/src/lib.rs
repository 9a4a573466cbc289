//! A client for the BlueZ Bluetooth daemon that does no I/O of its own.
//!
//! The daemon publishes adapters, devices and GATT attributes as one flat list
//! of remote objects. This crate rebuilds their hierarchy from that list,
//! reads and writes their properties, invokes their methods, and follows
//! discovery and file transfers. Every round trip goes through a
//! [`transport::Transport`] that the caller brings; what is sent and how each
//! answer is read is stated in the contracts and proved.

pub mod bluetooth_adapter;
pub mod bluetooth_device;
pub mod bluetooth_discovery_session;
pub mod bluetooth_gatt_characteristic;
pub mod bluetooth_gatt_descriptor;
pub mod bluetooth_gatt_service;
pub mod bluetooth_obex;
pub mod bluetooth_utils;
pub mod errors;
pub mod keyed_bytes;
pub mod marshal;
pub mod memory;
pub mod modalias;
pub mod objects;
pub mod search;
pub mod text;
pub mod transport;
pub mod value;

pub use bluetooth_adapter::BluetoothAdapter as Adapter;
pub use bluetooth_device::BluetoothDevice as Device;
pub use bluetooth_discovery_session::BluetoothDiscoverySession as DiscoverySession;
pub use bluetooth_gatt_characteristic::BluetoothGATTCharacteristic as GATTCharacteristic;
pub use bluetooth_gatt_descriptor::BluetoothGATTDescriptor as GATTDescriptor;
pub use bluetooth_gatt_service::BluetoothGATTService as GATTService;
