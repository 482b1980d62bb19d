use vstd::prelude::*;

verus! {

/// Lists every endpoint with its default flags, as one JSON object with a
/// `devices` array, or an object with an `error` member.
pub const LIST_DEVICES_SCRIPT: &'static str = r#"
            try {
                # Check and import AudioDeviceCmdlets module
                if (-not (Get-Module -ListAvailable -Name AudioDeviceCmdlets)) {
                    throw "AudioDeviceCmdlets module not installed. Run: Install-Module AudioDeviceCmdlets -Force -Scope CurrentUser"
                }
                
                Import-Module AudioDeviceCmdlets -ErrorAction Stop
                
                # Get all devices with detailed information
                $allAudioDevices = Get-AudioDevice -List
                $defaultPlayback = Get-AudioDevice -Playback -ErrorAction SilentlyContinue
                $defaultRecording = Get-AudioDevice -Recording -ErrorAction SilentlyContinue
                $defaultCommunicationPlayback = Get-AudioDevice -PlaybackCommunication -ErrorAction SilentlyContinue
                $defaultCommunicationRecording = Get-AudioDevice -RecordingCommunication -ErrorAction SilentlyContinue
                
                $allDevices = @()
                
                foreach ($device in $allAudioDevices) {
                    $isDefaultPlayback = $defaultPlayback -and ($device.ID -eq $defaultPlayback.ID)
                    $isDefaultRecording = $defaultRecording -and ($device.ID -eq $defaultRecording.ID)
                    $isDefaultCommunicationPlayback = $defaultCommunicationPlayback -and ($device.ID -eq $defaultCommunicationPlayback.ID)
                    $isDefaultCommunicationRecording = $defaultCommunicationRecording -and ($device.ID -eq $defaultCommunicationRecording.ID)
                    
                    $isDefault = $isDefaultPlayback -or $isDefaultRecording
                    $isCommunicationDefault = $isDefaultCommunicationPlayback -or $isDefaultCommunicationRecording
                    
                    $allDevices += @{
                        id = $device.ID
                        name = $device.Name
                        device_type = $device.Type
                        state = $device.State
                        is_default = $isDefault
                        is_communication_default = $isCommunicationDefault
                        last_seen = (Get-Date -Format "yyyy-MM-ddTHH:mm:ss.fffZ")
                    }
                }
                
                # Output structured JSON
                @{
                    devices = $allDevices
                    timestamp = (Get-Date -Format "yyyy-MM-ddTHH:mm:ss.fffZ")
                    session = $env:COMPUTERNAME
                } | ConvertTo-Json -Depth 4 -Compress
            }
            catch {
                $errorInfo = @{
                    error = $_.Exception.Message
                    type = "PowerShellExecutionError"
                    timestamp = (Get-Date -Format "yyyy-MM-ddTHH:mm:ss.fffZ")
                }
                $errorInfo | ConvertTo-Json -Compress
                exit 1
            }
        "#;

/// Reports whether the device-control module is installed, as a JSON object
/// with an `available` flag.
pub const MODULE_AVAILABILITY_SCRIPT: &'static str = r#"
            try {
                $module = Get-Module -ListAvailable -Name AudioDeviceCmdlets
                if ($module) {
                    @{
                        available = $true
                        version = $module.Version.ToString()
                        path = $module.ModuleBase
                    } | ConvertTo-Json -Compress
                } else {
                    @{
                        available = $false
                        message = "AudioDeviceCmdlets module not found"
                        install_command = "Install-Module AudioDeviceCmdlets -Force -Scope CurrentUser"
                    } | ConvertTo-Json -Compress
                }
            }
            catch {
                @{
                    available = $false
                    error = $_.Exception.Message
                } | ConvertTo-Json -Compress
            }
        "#;

/// Installs the device-control module, answering with a JSON object with a
/// `success` flag.
pub const INSTALL_MODULE_SCRIPT: &'static str = r#"
            try {
                # Check if running as administrator for system-wide install
                $currentUser = [Security.Principal.WindowsIdentity]::GetCurrent()
                $principal = New-Object Security.Principal.WindowsPrincipal($currentUser)
                $isAdmin = $principal.IsInRole([Security.Principal.WindowsBuiltInRole]::Administrator)
                
                if ($isAdmin) {
                    Write-Output "Installing AudioDeviceCmdlets for all users..."
                    Install-Module AudioDeviceCmdlets -Force -Scope AllUsers -AllowClobber
                } else {
                    Write-Output "Installing AudioDeviceCmdlets for current user..."
                    Install-Module AudioDeviceCmdlets -Force -Scope CurrentUser -AllowClobber
                }
                
                # Verify installation
                Import-Module AudioDeviceCmdlets -ErrorAction Stop
                $version = (Get-Module AudioDeviceCmdlets).Version
                
                @{
                    success = $true
                    version = $version.ToString()
                    scope = if ($isAdmin) { "AllUsers" } else { "CurrentUser" }
                    message = "AudioDeviceCmdlets module installed successfully"
                } | ConvertTo-Json -Compress
            }
            catch {
                @{
                    success = $false
                    error = $_.Exception.Message
                    suggestion = "Try running as administrator or check internet connection"
                } | ConvertTo-Json -Compress
                exit 1
            }
        "#;

const SET_DEFAULT_PART_0: &'static str = r#"
                try {
                    Import-Module AudioDeviceCmdlets -ErrorAction Stop
                    
                    $device = Get-AudioDevice -List | Where-Object { $_.ID -eq ""#;

const SET_DEFAULT_PART_1: &'static str = r#"" }
                    
                    if (-not $device) {
                        throw "Device not found: "#;

const SET_DEFAULT_PART_2: &'static str = r#""
                    }
                    
                    # Set as default for both regular and communication
                    if ($device.Type -eq "Playback") {
                        Set-AudioDevice -ID ""#;

const SET_DEFAULT_PART_3: &'static str = r#"" -DefaultOnly
                        Set-AudioDevice -ID ""#;

const SET_DEFAULT_PART_4: &'static str = r#"" -CommunicationOnly
                    } else {
                        Set-AudioDevice -ID ""#;

const SET_DEFAULT_PART_5: &'static str = r#"" -DefaultOnly
                        Set-AudioDevice -ID ""#;

const SET_DEFAULT_PART_6: &'static str = r#"" -CommunicationOnly
                    }
                    
                    @{
                        success = $true
                        device_id = ""#;

const SET_DEFAULT_PART_7: &'static str = r#""
                        device_name = $device.Name
                        device_type = $device.Type
                    } | ConvertTo-Json -Compress
                }
                catch {
                    @{
                        success = $false
                        error = $_.Exception.Message
                        device_id = ""#;

const SET_DEFAULT_PART_8: &'static str = r#""
                    } | ConvertTo-Json -Compress
                    exit 1
                }
            "#;

/// The set-default script for `device_id`: the template with the id
/// written into each of its slots.
pub closed spec fn set_default_script_text(device_id: Seq<char>) -> Seq<char> {
    SET_DEFAULT_PART_0@ + device_id + SET_DEFAULT_PART_1@ + device_id + SET_DEFAULT_PART_2@ + device_id + SET_DEFAULT_PART_3@ + device_id + SET_DEFAULT_PART_4@ + device_id + SET_DEFAULT_PART_5@ + device_id + SET_DEFAULT_PART_6@ + device_id + SET_DEFAULT_PART_7@ + device_id + SET_DEFAULT_PART_8@
}

/// Builds the script that makes `device_id` the default and the
/// communication default, answering with a JSON object with a `success` flag.
pub fn set_default_script(device_id: &str) -> (r: String)
    ensures
        r@ == set_default_script_text(device_id@),
{
    let mut s = String::from_str(SET_DEFAULT_PART_0);
    s.append(device_id);
    s.append(SET_DEFAULT_PART_1);
    s.append(device_id);
    s.append(SET_DEFAULT_PART_2);
    s.append(device_id);
    s.append(SET_DEFAULT_PART_3);
    s.append(device_id);
    s.append(SET_DEFAULT_PART_4);
    s.append(device_id);
    s.append(SET_DEFAULT_PART_5);
    s.append(device_id);
    s.append(SET_DEFAULT_PART_6);
    s.append(device_id);
    s.append(SET_DEFAULT_PART_7);
    s.append(device_id);
    s.append(SET_DEFAULT_PART_8);
    s
}

} // verus!
