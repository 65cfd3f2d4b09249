//! The markers at which the Fishstrap sources are patched, and what is put there.
use vstd::prelude::*;

verus! {

/// The settings model, relative to the project folder.
pub const SETTINGS_SOURCE: &'static str = "Bloxstrap/Models/Persistable/Settings.cs";

/// The application start-up code, relative to the project folder.
pub const APP_SOURCE: &'static str = "Bloxstrap/App.xaml.cs";

/// The settings window, relative to the project folder.
pub const MAIN_WINDOW_SOURCE: &'static str = "Bloxstrap/UI/Elements/Settings/MainWindow.xaml";

/// The channel settings page, relative to the project folder.
pub const CHANNEL_PAGE_SOURCE: &'static str = "Bloxstrap/UI/Elements/Settings/Pages/ChannelPage.xaml";

/// The channel view model, relative to the project folder.
pub const CHANNEL_VIEW_MODEL_SOURCE: &'static str = "Bloxstrap/UI/ViewModels/Settings/ChannelViewModel.cs";

/// The bootstrapper, relative to the project folder.
pub const BOOTSTRAPPER_SOURCE: &'static str = "Bloxstrap/Bootstrapper.cs";

/// The declaration of the settings class.
pub const SETTINGS_CLASS: &'static str = "public class Settings";

/// The settings class declared partial, so injected files can extend it.
pub const SETTINGS_PARTIAL_CLASS: &'static str = "public partial class Settings";

/// The settings load in the application start-up code.
pub const APP_STARTUP_MARKER: &'static str = "                Settings.Load();\n";

/// The settings load followed by the exit hook that undoes adapter address changes.
pub const APP_STARTUP_ADDITION: &'static str = r#"                Settings.Load();
                Settings.Prop.EnableAnalytics = false;
                Current.Exit += (_, _) =>
                {
                    if (Settings.Prop.BanAsyncPersistent)
                        return;
                    foreach (string guid in Settings.Prop.BanAsyncSpoofedAdapterGuids.ToList())
                        Utility.BanAsync.MacSpoofer.DeleteNetworkAddressByGuid(guid);
                };
"#;

/// The deployment entry of the settings window navigation.
pub const NAVIGATION_MARKER: &'static str = "                    <ui:NavigationItem Content=\"{x:Static resources:Strings.Common_Deployment}\" PageType=\"{x:Type pages:ChannelPage}\" Icon=\"CloudArchive20\" Tag=\"channel\" />\n";

/// The navigation entry added after the deployment entry.
pub const NAVIGATION_ITEM: &'static str = "                    <ui:NavigationItem Content=\"BanAsync\" PageType=\"{x:Type pages:BanAsyncPage}\" Icon=\"ShieldKeyhole24\" Tag=\"banasync\" />\n";

/// The card expander on the channel page before which the executor toggle goes.
pub const CHANNEL_CARD_MARKER: &'static str = "        <ui:CardExpander Margin=\"0,8,0,0\" IsExpanded=\"True\">\n";

/// The executor channel toggle on the channel page.
pub const EXECUTOR_TOGGLE: &'static str = r#"        <controls:OptionControl
            Header="Executor channels"
            Description="Use the Roblox version supported by your selected executor.">
            <ui:ToggleSwitch IsChecked="{Binding UseExecutorChannels, Mode=TwoWay}" />
        </controls:OptionControl>
"#;

/// The channel text box on the channel page.
pub const CHANNEL_BOX: &'static str = "                    <ui:TextBox Grid.Column=\"1\" Margin=\"8,0,8,0\" Padding=\"10,5,10,5\" Width=\"200\" Text=\"{Binding ViewChannel, Mode=TwoWay, UpdateSourceTrigger=PropertyChanged, Delay=250}\" />";

/// The channel text box together with the executor selector.
pub const EXECUTOR_SELECTOR: &'static str = r#"                    <StackPanel Grid.Column="1" Margin="8,0,8,0" Width="220">
                        <ui:TextBox Padding="10,5,10,5" Text="{Binding ViewChannel, Mode=TwoWay, UpdateSourceTrigger=PropertyChanged, Delay=250}">
                            <ui:TextBox.Style>
                                <Style TargetType="ui:TextBox" BasedOn="{StaticResource {x:Type ui:TextBox}}">
                                    <Setter Property="IsEnabled" Value="True" />
                                    <Style.Triggers>
                                        <DataTrigger Binding="{Binding UseExecutorChannels}" Value="True">
                                            <Setter Property="IsEnabled" Value="False" />
                                        </DataTrigger>
                                    </Style.Triggers>
                                </Style>
                            </ui:TextBox.Style>
                        </ui:TextBox>
                        <ComboBox Margin="0,6,0,0" Padding="10,5,10,5" MaxDropDownHeight="320" ScrollViewer.CanContentScroll="True" ItemsSource="{Binding Executors}" DisplayMemberPath="Title" SelectedItem="{Binding SelectedExecutor, Mode=TwoWay}">
                            <ComboBox.Style>
                                <Style TargetType="ComboBox" BasedOn="{StaticResource {x:Type ComboBox}}">
                                    <Setter Property="Visibility" Value="Collapsed" />
                                    <Style.Triggers>
                                        <DataTrigger Binding="{Binding UseExecutorChannels}" Value="True">
                                            <Setter Property="Visibility" Value="Visible" />
                                        </DataTrigger>
                                    </Style.Triggers>
                                </Style>
                            </ComboBox.Style>
                        </ComboBox>
                    </StackPanel>"#;

/// The interfaces import of the channel view model.
pub const USING_MARKER: &'static str = "using Bloxstrap.RobloxInterfaces;";

/// The imports that the executor code of the channel view model needs.
pub const USING_REPLACEMENT: &'static str = "using Bloxstrap.Models.APIs;\nusing Bloxstrap.RobloxInterfaces;\nusing System.Collections.ObjectModel;";

/// The constructor of the channel view model.
pub const VIEW_MODEL_CONSTRUCTOR: &'static str = r#"        public ChannelViewModel()
        {
            Task.Run(() => LoadChannelDeployInfo(App.Settings.Prop.Channel));
        }
"#;

/// The constructor of the channel view model that also loads the executor list.
pub const EXECUTOR_CONSTRUCTOR: &'static str = r#"        public ChannelViewModel()
        {
            Task.Run(InitializeAsync);
        }
        public ObservableCollection<WeaoExploit> Executors { get; } = new();
        private WeaoExploit? _selectedExecutor;
        public WeaoExploit? SelectedExecutor
        {
            get => _selectedExecutor;
            set
            {
                _selectedExecutor = value;
                OnPropertyChanged(nameof(SelectedExecutor));
                if (value is null)
                    return;
                App.Settings.Prop.ExecutorChannel = value.Title;
                Task.Run(() => LoadExecutorDeployInfo(value));
            }
        }
        private async Task InitializeAsync()
        {
            await RefreshExecutorsAsync();
            if (UseExecutorChannels && SelectedExecutor is not null)
                await LoadExecutorDeployInfo(SelectedExecutor);
            else
                await LoadChannelDeployInfo(App.Settings.Prop.Channel);
        }
        private async Task RefreshExecutorsAsync()
        {
            var result = await WeaoClient.GetWindowsExploitsAsync();
            App.Current.Dispatcher.Invoke(() =>
            {
                Executors.Clear();
                foreach (var executor in result.Exploits)
                    Executors.Add(executor);
                SelectedExecutor = Executors.FirstOrDefault(executor =>
                    string.Equals(executor.Title, App.Settings.Prop.ExecutorChannel, StringComparison.OrdinalIgnoreCase));
                if (SelectedExecutor is null && UseExecutorChannels && Executors.Count > 0)
                    SelectedExecutor = Executors[0];
            });
            if (!result.Success && UseExecutorChannels)
            {
                ShowLoadingError = true;
                ChannelInfoLoadingText = result.Error ?? "couldn't load the executor list";
                OnPropertyChanged(nameof(ShowLoadingError));
                OnPropertyChanged(nameof(ChannelInfoLoadingText));
            }
        }
        private Task LoadExecutorDeployInfo(WeaoExploit executor)
        {
            ShowLoadingError = false;
            ShowChannelWarning = !executor.UpdateStatus;
            ChannelInfoLoadingText = $"using {executor.Title}";
            ChannelDeployInfo = new DeployInfo
            {
                Version = string.IsNullOrEmpty(executor.Version) ? "Executor" : executor.Version,
                VersionGuid = executor.RbxVersion,
                Timestamp = string.IsNullOrEmpty(executor.UpdatedDate) ? "?" : executor.UpdatedDate
            };
            OnPropertyChanged(nameof(ShowLoadingError));
            OnPropertyChanged(nameof(ShowChannelWarning));
            OnPropertyChanged(nameof(ChannelInfoLoadingText));
            OnPropertyChanged(nameof(ChannelDeployInfo));
            return Task.CompletedTask;
        }
"#;

/// The update-checking property of the channel view model.
pub const UPDATE_PROPERTY_MARKER: &'static str = "        public bool UpdateCheckingEnabled\n";

/// The executor channel property of the channel view model.
pub const EXECUTOR_PROPERTY: &'static str = r#"        public bool UseExecutorChannels
        {
            get => App.Settings.Prop.UseExecutors;
            set
            {
                App.Settings.Prop.UseExecutors = value;
                OnPropertyChanged(nameof(UseExecutorChannels));
                if (value)
                {
                    if (SelectedExecutor is not null)
                        Task.Run(() => LoadExecutorDeployInfo(SelectedExecutor));
                    else
                        Task.Run(RefreshExecutorsAsync);
                }
                else
                {
                    Task.Run(() => LoadChannelDeployInfo(App.Settings.Prop.Channel));
                }
            }
        }
"#;

/// The latest-version assignment in the bootstrapper.
pub const VERSION_MARKER: &'static str = "                _latestVersion = Utilities.ParseVersionSafe(clientVersion.Version);\n";

/// The latest-version assignment followed by the executor version resolution.
pub const EXECUTOR_RESOLUTION: &'static str = r#"                _latestVersion = Utilities.ParseVersionSafe(clientVersion.Version);
                if (App.Settings.Prop.UseExecutors && !IsStudioLaunch)
                {
                    string executorName = App.Settings.Prop.ExecutorChannel;
                    var result = await WeaoClient.GetWindowsExploitsAsync();
                    var executor = result.Exploits.FirstOrDefault(item =>
                        string.Equals(item.Title, executorName, StringComparison.OrdinalIgnoreCase));
                    if (executor is null)
                    {
                        Frontend.ShowMessageBox(
                            result.Error ?? $"'{executorName}' isn't available right now. pick another executor in Deployment.",
                            MessageBoxImage.Error,
                            MessageBoxButton.OK);
                        App.Terminate(ErrorCode.ERROR_CANCELLED);
                        return;
                    }
                    _latestVersionGuid = executor.RbxVersion;
                    _latestVersion = null;
                    App.Logger.WriteLine(LOG_IDENT, $"using Roblox version {executor.RbxVersion} for executor '{executor.Title}'");
                }
"#;

/// The version comparison that skips updates outside production builds.
pub const PRODUCTION_UPDATE_CHECK: &'static str = "if (App.IsProductionBuild && versionComparison == VersionComparison.Equal || versionComparison == VersionComparison.GreaterThan)";

/// The version comparison that applies to every build.
pub const UPDATE_CHECK: &'static str = "if (versionComparison == VersionComparison.Equal || versionComparison == VersionComparison.GreaterThan)";

/// The header of the bootstrapper update check.
pub const UPDATE_METHOD_MARKER: &'static str = "        private async Task<bool> CheckForUpdates()";

/// The opening of the `try` block of the update check.
pub const UPDATE_TRY_MARKER: &'static str = "            try\n            {\n";

/// The `catch` clause of the update check.
pub const UPDATE_CATCH_MARKER: &'static str = "            catch (Exception ex)";

/// The line that closes the `try` block of the update check.
pub const UPDATE_CLOSE_MARKER: &'static str = "            }\n";

/// The new body of the update check, which hands the update to the installer.
pub const UPDATER_BODY: &'static str = r#"                string installerLocation = Path.Combine(Paths.Base, "FishstrapInstaller.exe");
                if (!File.Exists(installerLocation))
                    throw new FileNotFoundException("FishstrapInstaller.exe is missing from the Fishstrap folder", installerLocation);
                ProcessStartInfo startInfo = new()
                {
                    FileName = installerLocation,
                    WorkingDirectory = Paths.Base,
                };
                startInfo.ArgumentList.Add("--repo");
                startInfo.ArgumentList.Add($"https://github.com/{App.ProjectRepository}.git");
                startInfo.ArgumentList.Add("--out");
                startInfo.ArgumentList.Add(Paths.Base);
                startInfo.ArgumentList.Add("--wait-pid");
                startInfo.ArgumentList.Add(Environment.ProcessId.ToString());
                startInfo.ArgumentList.Add("--no-pause");
                foreach (string arg in App.LaunchSettings.Args)
                {
                    startInfo.ArgumentList.Add("--app-arg");
                    startInfo.ArgumentList.Add(arg);
                }
                if (_launchMode == LaunchMode.Player && !App.LaunchSettings.Args.Contains("-player"))
                {
                    startInfo.ArgumentList.Add("--app-arg");
                    startInfo.ArgumentList.Add("-player");
                }
                else if (_launchMode == LaunchMode.Studio && !App.LaunchSettings.Args.Contains("-studio"))
                {
                    startInfo.ArgumentList.Add("--app-arg");
                    startInfo.ArgumentList.Add("-studio");
                }
                App.Settings.Save();
                new InterProcessLock("AutoUpdater");
                Process.Start(startInfo);
                App.SoftTerminate();
                return true;
"#;

/// The name of the settings property that newer sources already have.
pub const COMPATIBILITY_PROPERTY_NAME: &'static str = "RichPresenceStatusDisplayType";

/// Where the settings class is declared.
pub const SETTINGS_CLASS_MARKER: &'static str = "class Settings";

/// The compatibility property added to the settings class when it is missing.
pub const SETTINGS_PROPERTY: &'static str = "
        public DiscordRPCStatusDisplay RichPresenceStatusDisplayType { get; set; } = DiscordRPCStatusDisplay.Name;
";

/// None of the markers that the patches search for is empty.
pub proof fn lemma_markers_nonempty()
    ensures
        APP_STARTUP_MARKER@.len() > 0,
        NAVIGATION_MARKER@.len() > 0,
        CHANNEL_CARD_MARKER@.len() > 0,
        CHANNEL_BOX@.len() > 0,
        USING_MARKER@.len() > 0,
        VIEW_MODEL_CONSTRUCTOR@.len() > 0,
        UPDATE_PROPERTY_MARKER@.len() > 0,
        VERSION_MARKER@.len() > 0,
        PRODUCTION_UPDATE_CHECK@.len() > 0,
        SETTINGS_CLASS@.len() > 0,
        UPDATE_METHOD_MARKER@.len() > 0,
        UPDATE_TRY_MARKER@.len() > 0,
        UPDATE_CATCH_MARKER@.len() > 0,
        UPDATE_CLOSE_MARKER@.len() > 0,
        COMPATIBILITY_PROPERTY_NAME@.len() > 0,
        SETTINGS_CLASS_MARKER@.len() > 0,
{
    reveal_strlit("                Settings.Load();\n");
    reveal_strlit("                    <ui:NavigationItem Content=\"{x:Static resources:Strings.Common_Deployment}\" PageType=\"{x:Type pages:ChannelPage}\" Icon=\"CloudArchive20\" Tag=\"channel\" />\n");
    reveal_strlit("        <ui:CardExpander Margin=\"0,8,0,0\" IsExpanded=\"True\">\n");
    reveal_strlit("                    <ui:TextBox Grid.Column=\"1\" Margin=\"8,0,8,0\" Padding=\"10,5,10,5\" Width=\"200\" Text=\"{Binding ViewChannel, Mode=TwoWay, UpdateSourceTrigger=PropertyChanged, Delay=250}\" />");
    reveal_strlit("using Bloxstrap.RobloxInterfaces;");
    reveal_strlit(r#"        public ChannelViewModel()
        {
            Task.Run(() => LoadChannelDeployInfo(App.Settings.Prop.Channel));
        }
"#);
    reveal_strlit("        public bool UpdateCheckingEnabled\n");
    reveal_strlit("                _latestVersion = Utilities.ParseVersionSafe(clientVersion.Version);\n");
    reveal_strlit("if (App.IsProductionBuild && versionComparison == VersionComparison.Equal || versionComparison == VersionComparison.GreaterThan)");
    reveal_strlit("public class Settings");
    reveal_strlit("        private async Task<bool> CheckForUpdates()");
    reveal_strlit("            try\n            {\n");
    reveal_strlit("            catch (Exception ex)");
    reveal_strlit("            }\n");
    reveal_strlit("RichPresenceStatusDisplayType");
    reveal_strlit("class Settings");
}

} // verus!
