pub mod collection;
pub mod compat;
pub mod df;
pub mod fch;
pub mod flags;
pub mod gnb;
pub mod headers;
pub mod ids;
pub mod memory;
pub mod parameters;
pub mod psp;
pub mod tokens;

pub use collection::{put_header_into_collection, take_body_from_collection, take_body_from_collection_mut, take_header_from_collection, ByteLayout};
pub use compat::EntryCompatible;
pub use flags::{BoardInstance, BoardInstances, PriorityLevels};
pub use ids::{
    CbsEntryId, CcxEntryId, DfEntryId, EntryId, FchEntryId, GnbEntryId, GroupId, MemoryEntryId, OemEntryId,
    PspEntryId, RawEntryId, TokenEntryId,
};
pub use parameters::{Parameter, ParameterAttributes, Parameters, ParametersIter};
pub use headers::{ContextFormat, ContextType, ENTRY_ALIGNMENT, ENTRY_HEADER, GROUP_HEADER, TOKEN_ENTRY, V2_HEADER, V3_HEADER_EXT};
pub use tokens::{AdditionalPcieLinkSpeed, BaudRate, BdatPrintData, BdatSupport, BmcGen2TxDeemphasis, BmcLinkSpeed, BmcRcbCheckingMode, CbsMemAddrCmdParityRetryDdr4, CbsMemPowerDownDelay, CbsMemSpeedDdr4, CcxApicMode, CcxCcdControl, CcxCoreControl, CcxL3XiPrefetchReqThrottleEnable, CcxSevAsidCount, CcxSmtControl, CxlResetPin, DfCakeCrcThresholdBounds, DfCcdBwThrottleLevel, DfCxlStronglyOrderedWrites, DfCxlToggle, DfDramNumaPerSocket, DfExtIpSyncFloodPropagation, DfGmiSubTxRxMode, DfMemInterleaving, DfMemInterleavingSize, DfP2pOrderedWrites, DfPdrMode, DfPdrTuningMode, DfPfOrganization, DfPstateModeSelect, DfRemapAt1TiB, DfSyncFloodPropagation, DfSysStorageAtTopOfMem, DfTgtReqGo, DfToggle, DfUmcCxlMixedInterleavedMode, DfXgmi2LinkMaxSpeed, DfXgmi3LinkMaxSpeed, DfXgmi4LinkMaxSpeed, DfXgmiAcDcCoupledLink, DfXgmiAcDcMode, DfXgmiChannelType, DfXgmiChannelTypeSelect, DfXgmiLinkConfig, DfXgmiLinkMaxSpeed, DfXgmiPresetControlMode, DfXgmiTxEqMode, DxioPhyParamDc, DxioPhyParamIqofc, DxioPhyParamPole, DxioPhyParamVga, EccSymbolSize, EspiController, FchConsoleOutMode, FchConsoleOutSerialPortEspiControllerSelect, FchConsoleOutSerialPortIoBase, FchConsoleOutSuperIoType, FchConsoleSerialPort, FchGppClkMap, FchGppClkMapSelection, FchI2cI3cControllerMode, FchI2cI3cSmbusSelect, FchI2cMode, FchI2cSdaHoldOverrideMode, FchI3cSdaHoldOverrideMode, FchIc3TransferSpeed, FchMp1WarnRstAckMode, FchPowerFailMode, FchSmbusSpeed, FchSpdControlOwnershipMode, FourthPcieLinkSpeed, GnbAdditionalFeatureDsm, GnbAdditionalFeatureDsmDetector, GnbSmuDfPstateFclkLimit, MemActionOnBistFailure, MemAutoRefreshFineGranMode, MemAutoRefreshsCountForThrottling, MemBootTimePostPackageRepair, MemChannelDisableFloatPowerGoodDdr, MemClockValue, MemControllerPmuTrainDfeDdr4, MemControllerPmuTrainFfeDdr4, MemControllerPmuTrainingMode, MemControllerWritingCrcMode, MemDataPoison, MemEcsModeDdr, MemForcePowerDownThrottleEnable, MemHealBistEnable, MemHealPprType, MemHealTestSelect, MemHealingBistRepairTypeDdr, MemMaxActivityCount, MemMbistAggressorsChannelDdrMode, MemMbistAggressorsChannels, MemMbistDataEyeSilentExecutionDdr, MemMbistDataEyeType, MemMbistDdrMode, MemMbistPatternSelect, MemMbistPerBitSlaveDieReportDdr, MemMbistTest, MemMbistTestMode, MemNvdimmPowerSource, MemOdtsCmdThrottleMode, MemOdtsMode, MemPmuBistAlgorithmSelect, MemPmuBistAlgorithmSelectDdr, MemPmuBistTestSelect, MemPmuTrainingResultOutput, MemPmuTrainingRetryCount, MemPopulationMsgControlMode, MemRcdParityMode, MemRcwWeakDriveDisable, MemRdimmTimingCmdParLatency, MemSelfHealing, MemSelfRefreshExitStaggering, MemSpdVerifyCrc, MemTargetSpeed, MemTccd5ReadCommandSpacingMode, MemThermalThrottleMode, MemThrottleCtrlRollWindowDepth, MemTrainingHdtControl, MemTsmeMode, MemUserTimingMode, PspApmlSbtsiSlaveMode, PspEnableDebugMode, PspSevMode, ReservedDramModuleDrtmMode, SecondPcieLinkMaxPayload, SecondPcieLinkSpeed, ThirdPcieLinkSpeed, UmaMode, WorkloadProfile};
